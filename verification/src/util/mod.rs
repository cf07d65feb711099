pub mod error;
pub mod event;
pub mod file;
pub mod jsonrpc;
pub mod rand;
pub mod text;
pub mod time;

use vstd::prelude::*;

verus! {

/// The default value of a type: what its `default` gives.
pub fn default<T: Default>() -> (res: T)
    ensures
        call_ensures(T::default, (), res),
{
    T::default()
}

} // verus!

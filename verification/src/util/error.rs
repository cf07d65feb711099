use vstd::prelude::*;
use crate::util::text::string_of;
use vstd::string::StringExecFns;

verus! {

/// The error codes of the gateway. Their numbers start at
/// `KPGConfigParseOpenFileFailed` = -1900000 and count up by one in
/// declaration order; `KPGErrorCodeNone` is 0.
#[derive(Debug, Clone, Copy, PartialEq, Eq, Structural, Hash)]
pub enum KPGErrorCode {
    KPGErrorCodeNone,
    KPGConfigParseOpenFileFailed,
    KPGConfigParseFailed,
    KPGConfigFileOpenFailed,
    KPGInstanceLaunchFailed,
    KPGPlayListAddMediaFailed,
    KPGMediaServerExited,
    KPGFactoryParseConfigFailed,
    KPGFactoryOpenPluginFailed,
    KPGServerMediaServerEnableSchemaFailed,
    KPGServerMediaServerStartFailed,
    KPGServerMediaServerStopFailed,
    KPGUtilReadDirectoryFailed,
    KPGJsonRPCFailed,
    KPGPluginCenterDownloadFailed,
    KPGPluginCenterGetFontFailed,
    KPGPluginCenterGetPluginInformationFailed,
    KPGAPIServerBindFailed,
    KPGAPIServerStartFailed,
    KPGServerNotSupportSchema,
    KPGFactoryLaunchServerFailed,
    KPGFactoryLaunchInstanceFailed,
}

/// The position of a code after `KPGConfigParseOpenFileFailed`.
pub open spec fn code_offset(c: KPGErrorCode) -> int {
    match c {
        KPGErrorCode::KPGErrorCodeNone => -1,
        KPGErrorCode::KPGConfigParseOpenFileFailed => 0,
        KPGErrorCode::KPGConfigParseFailed => 1,
        KPGErrorCode::KPGConfigFileOpenFailed => 2,
        KPGErrorCode::KPGInstanceLaunchFailed => 3,
        KPGErrorCode::KPGPlayListAddMediaFailed => 4,
        KPGErrorCode::KPGMediaServerExited => 5,
        KPGErrorCode::KPGFactoryParseConfigFailed => 6,
        KPGErrorCode::KPGFactoryOpenPluginFailed => 7,
        KPGErrorCode::KPGServerMediaServerEnableSchemaFailed => 8,
        KPGErrorCode::KPGServerMediaServerStartFailed => 9,
        KPGErrorCode::KPGServerMediaServerStopFailed => 10,
        KPGErrorCode::KPGUtilReadDirectoryFailed => 11,
        KPGErrorCode::KPGJsonRPCFailed => 12,
        KPGErrorCode::KPGPluginCenterDownloadFailed => 13,
        KPGErrorCode::KPGPluginCenterGetFontFailed => 14,
        KPGErrorCode::KPGPluginCenterGetPluginInformationFailed => 15,
        KPGErrorCode::KPGAPIServerBindFailed => 16,
        KPGErrorCode::KPGAPIServerStartFailed => 17,
        KPGErrorCode::KPGServerNotSupportSchema => 18,
        KPGErrorCode::KPGFactoryLaunchServerFailed => 19,
        KPGErrorCode::KPGFactoryLaunchInstanceFailed => 20,
    }
}

/// The number of a code.
pub open spec fn code_number(c: KPGErrorCode) -> int {
    if c == KPGErrorCode::KPGErrorCodeNone { 0 } else { -1900000 + code_offset(c) }
}

impl KPGErrorCode {
    /// The number of this code.
    pub fn value(&self) -> (res: i64)
        ensures
            res == code_number(*self),
    {
        let offset: i64 = match self {
            KPGErrorCode::KPGErrorCodeNone => { return 0; },
            KPGErrorCode::KPGConfigParseOpenFileFailed => 0,
            KPGErrorCode::KPGConfigParseFailed => 1,
            KPGErrorCode::KPGConfigFileOpenFailed => 2,
            KPGErrorCode::KPGInstanceLaunchFailed => 3,
            KPGErrorCode::KPGPlayListAddMediaFailed => 4,
            KPGErrorCode::KPGMediaServerExited => 5,
            KPGErrorCode::KPGFactoryParseConfigFailed => 6,
            KPGErrorCode::KPGFactoryOpenPluginFailed => 7,
            KPGErrorCode::KPGServerMediaServerEnableSchemaFailed => 8,
            KPGErrorCode::KPGServerMediaServerStartFailed => 9,
            KPGErrorCode::KPGServerMediaServerStopFailed => 10,
            KPGErrorCode::KPGUtilReadDirectoryFailed => 11,
            KPGErrorCode::KPGJsonRPCFailed => 12,
            KPGErrorCode::KPGPluginCenterDownloadFailed => 13,
            KPGErrorCode::KPGPluginCenterGetFontFailed => 14,
            KPGErrorCode::KPGPluginCenterGetPluginInformationFailed => 15,
            KPGErrorCode::KPGAPIServerBindFailed => 16,
            KPGErrorCode::KPGAPIServerStartFailed => 17,
            KPGErrorCode::KPGServerNotSupportSchema => 18,
            KPGErrorCode::KPGFactoryLaunchServerFailed => 19,
            KPGErrorCode::KPGFactoryLaunchInstanceFailed => 20,
        };
        -1900000 + offset
    }

    /// The name of this code, as the gateway prints it.
    pub fn name(&self) -> (res: String)
        ensures
            res@ == code_name(*self)@,
    {
        string_of(code_name(*self))
    }
}

/// The printed name of each code: the variant's own name.
#[verifier::when_used_as_spec(code_name_spec)]
pub fn code_name(c: KPGErrorCode) -> (res: &'static str)
    ensures
        res == code_name_spec(c),
{
    match c {
        KPGErrorCode::KPGErrorCodeNone => "KPGErrorCodeNone",
        KPGErrorCode::KPGConfigParseOpenFileFailed => "KPGConfigParseOpenFileFailed",
        KPGErrorCode::KPGConfigParseFailed => "KPGConfigParseFailed",
        KPGErrorCode::KPGConfigFileOpenFailed => "KPGConfigFileOpenFailed",
        KPGErrorCode::KPGInstanceLaunchFailed => "KPGInstanceLaunchFailed",
        KPGErrorCode::KPGPlayListAddMediaFailed => "KPGPlayListAddMediaFailed",
        KPGErrorCode::KPGMediaServerExited => "KPGMediaServerExited",
        KPGErrorCode::KPGFactoryParseConfigFailed => "KPGFactoryParseConfigFailed",
        KPGErrorCode::KPGFactoryOpenPluginFailed => "KPGFactoryOpenPluginFailed",
        KPGErrorCode::KPGServerMediaServerEnableSchemaFailed => "KPGServerMediaServerEnableSchemaFailed",
        KPGErrorCode::KPGServerMediaServerStartFailed => "KPGServerMediaServerStartFailed",
        KPGErrorCode::KPGServerMediaServerStopFailed => "KPGServerMediaServerStopFailed",
        KPGErrorCode::KPGUtilReadDirectoryFailed => "KPGUtilReadDirectoryFailed",
        KPGErrorCode::KPGJsonRPCFailed => "KPGJsonRPCFailed",
        KPGErrorCode::KPGPluginCenterDownloadFailed => "KPGPluginCenterDownloadFailed",
        KPGErrorCode::KPGPluginCenterGetFontFailed => "KPGPluginCenterGetFontFailed",
        KPGErrorCode::KPGPluginCenterGetPluginInformationFailed => "KPGPluginCenterGetPluginInformationFailed",
        KPGErrorCode::KPGAPIServerBindFailed => "KPGAPIServerBindFailed",
        KPGErrorCode::KPGAPIServerStartFailed => "KPGAPIServerStartFailed",
        KPGErrorCode::KPGServerNotSupportSchema => "KPGServerNotSupportSchema",
        KPGErrorCode::KPGFactoryLaunchServerFailed => "KPGFactoryLaunchServerFailed",
        KPGErrorCode::KPGFactoryLaunchInstanceFailed => "KPGFactoryLaunchInstanceFailed",
    }
}

pub open spec fn code_name_spec(c: KPGErrorCode) -> &'static str {
    match c {
        KPGErrorCode::KPGErrorCodeNone => "KPGErrorCodeNone",
        KPGErrorCode::KPGConfigParseOpenFileFailed => "KPGConfigParseOpenFileFailed",
        KPGErrorCode::KPGConfigParseFailed => "KPGConfigParseFailed",
        KPGErrorCode::KPGConfigFileOpenFailed => "KPGConfigFileOpenFailed",
        KPGErrorCode::KPGInstanceLaunchFailed => "KPGInstanceLaunchFailed",
        KPGErrorCode::KPGPlayListAddMediaFailed => "KPGPlayListAddMediaFailed",
        KPGErrorCode::KPGMediaServerExited => "KPGMediaServerExited",
        KPGErrorCode::KPGFactoryParseConfigFailed => "KPGFactoryParseConfigFailed",
        KPGErrorCode::KPGFactoryOpenPluginFailed => "KPGFactoryOpenPluginFailed",
        KPGErrorCode::KPGServerMediaServerEnableSchemaFailed => "KPGServerMediaServerEnableSchemaFailed",
        KPGErrorCode::KPGServerMediaServerStartFailed => "KPGServerMediaServerStartFailed",
        KPGErrorCode::KPGServerMediaServerStopFailed => "KPGServerMediaServerStopFailed",
        KPGErrorCode::KPGUtilReadDirectoryFailed => "KPGUtilReadDirectoryFailed",
        KPGErrorCode::KPGJsonRPCFailed => "KPGJsonRPCFailed",
        KPGErrorCode::KPGPluginCenterDownloadFailed => "KPGPluginCenterDownloadFailed",
        KPGErrorCode::KPGPluginCenterGetFontFailed => "KPGPluginCenterGetFontFailed",
        KPGErrorCode::KPGPluginCenterGetPluginInformationFailed => "KPGPluginCenterGetPluginInformationFailed",
        KPGErrorCode::KPGAPIServerBindFailed => "KPGAPIServerBindFailed",
        KPGErrorCode::KPGAPIServerStartFailed => "KPGAPIServerStartFailed",
        KPGErrorCode::KPGServerNotSupportSchema => "KPGServerNotSupportSchema",
        KPGErrorCode::KPGFactoryLaunchServerFailed => "KPGFactoryLaunchServerFailed",
        KPGErrorCode::KPGFactoryLaunchInstanceFailed => "KPGFactoryLaunchInstanceFailed",
    }
}

/// What an error holds: its code and its message.
#[verifier::ext_equal]
pub struct KPGErrorView {
    pub code: KPGErrorCode,
    pub error: Seq<char>,
}

/// An error of the gateway: a code and a message.
#[derive(Debug, Clone)]
pub struct KPGError {
    code: KPGErrorCode,
    error: String,
}

impl View for KPGError {
    type V = KPGErrorView;

    closed spec fn view(&self) -> KPGErrorView {
        KPGErrorView { code: self.code, error: self.error@ }
    }
}

impl KPGError {
    /// An error with `code` whose message is the rendering of the cause.
    pub fn new(code: KPGErrorCode, error: &str) -> (res: KPGError)
        ensures
            res@.code == code,
            res@.error == error@,
    {
        KPGError { code, error: string_of(error) }
    }

    /// An error with `code` and the message `error`.
    pub fn new_with_string(code: KPGErrorCode, error: String) -> (res: KPGError)
        ensures
            res@.code == code,
            res@.error == error@,
    {
        KPGError { code, error }
    }

    /// An error with `code` and the message `error`.
    pub fn new_with_str(code: KPGErrorCode, error: &'static str) -> (res: KPGError)
        ensures
            res@.code == code,
            res@.error == error@,
    {
        KPGError { code, error: string_of(error) }
    }

    /// Whether this error carries `code`.
    pub fn equal(&self, code: KPGErrorCode) -> (res: bool)
        ensures
            res == (self@.code == code),
    {
        self.code == code
    }

    /// The code of this error.
    pub fn code(&self) -> (res: KPGErrorCode)
        ensures
            res == self@.code,
    {
        self.code
    }

    /// The message of this error.
    pub fn message(&self) -> (res: String)
        ensures
            res@ == self@.error,
    {
        self.error.clone()
    }

    /// The printed form: `code: <name>, error: <message>`.
    pub fn to_string(&self) -> (res: String)
        ensures
            res@ == "code: "@ + code_name(self@.code)@ + ", error: "@ + self@.error,
    {
        let mut s = string_of("code: ");
        s.append(code_name(self.code));
        s.append(", error: ");
        s.append(self.error.as_str());
        s
    }
}

/// Law: an error answers `equal` for exactly the code it was made with.
pub proof fn lemma_equal_matches_construction(e: KPGError, made_with: KPGErrorCode, asked: KPGErrorCode)
    requires
        e@.code == made_with,
    ensures
        (e@.code == asked) <==> (made_with == asked),
{
}

} // verus!

//! The factory: what it builds from the configuration, checked before the
//! codec library builds it, and which of its servers and instances a launch
//! starts.

pub mod general;
pub mod instance;
pub mod output;
pub mod playlist;
pub mod scene;
pub mod server;

use vstd::prelude::*;
use crate::config::{Root, InstanceView, strings_view, playlists_view, scenes_view, instances_view};
use crate::factory::instance::{KPInstancePlan, KPInstancePlanView, instance_plan, instance_plan_spec};
use crate::factory::playlist::{KPPlaylistPlan, KPPlaylistPlanView, KPResourceOutcome, plans_view, create_playlist_plans,
    create_playlist_spec, playlists_fit, outcome_table_view};
use crate::factory::scene::{KPScenePlan, KPScenePlanView, KPPluginCheck, scene_plans_view, create_scene_plans, create_scene_spec,
    scenes_fit, check_table_view};
use crate::factory::server::{KPGServerPlan, KPGServerPlanView, entries_view, create_server_entries, create_server_spec, registered};
use crate::factory::instance::find_registered;
use crate::util::error::{KPGError, KPGErrorCode, KPGErrorView};
use crate::util::text::{string_of, append_str};

verus! {

/// The kinds of work the gateway runs.
#[derive(Debug, Clone, Copy, PartialEq, Eq, Hash, Structural)]
pub enum ThreadType {
    Server,
    Instance,
    Output,
}

/// The end of a piece of work: its name and kind.
#[derive(Debug, Clone, PartialEq, Eq, Hash)]
pub struct ThreadResult {
    pub thread_name: String,
    pub thread_type: ThreadType,
}

/// The factory: its name, what it has built from the configuration, and
/// when it was created, launched and shut down (milliseconds since the
/// epoch, zero where it was not).
#[derive(Debug)]
pub struct KPGFactory {
    pub name: String,
    pub output: Vec<output::KPGOutput>,
    pub playlist: Vec<KPPlaylistPlan>,
    pub scene: Vec<KPScenePlan>,
    pub server: Vec<(String, KPGServerPlan)>,
    pub instance: Vec<KPInstancePlan>,
    pub create_time: u128,
    pub launch_time: u128,
    pub shutdown_time: u128,
}

/// The names of playlist plans.
pub open spec fn playlist_names(ps: Seq<KPPlaylistPlanView>) -> Seq<Seq<char>> {
    ps.map_values(|p: KPPlaylistPlanView| p.name)
}

/// The names of scene plans.
pub open spec fn scene_names(ss: Seq<KPScenePlanView>) -> Seq<Seq<char>> {
    ss.map_values(|s: KPScenePlanView| s.name)
}

/// The instances of all entries, in order, or the first error.
pub open spec fn create_instance_spec(
    inss: Seq<InstanceView>,
    playlists: Seq<Seq<char>>,
    scenes: Seq<Seq<char>>,
    servers: Seq<(Seq<char>, KPGServerPlanView)>,
) -> Result<Seq<KPInstancePlanView>, KPGErrorView>
    decreases inss.len(),
{
    if inss.len() == 0 {
        Ok(seq![])
    } else {
        match create_instance_spec(inss.drop_last(), playlists, scenes, servers) {
            Err(e) => Err(e),
            Ok(ps) => match instance_plan_spec(inss.last(), playlists, scenes, servers) {
                Err(e) => Err(e),
                Ok(p) => Ok(ps.push(p)),
            },
        }
    }
}

/// The views of instance plans.
pub open spec fn instance_plans_view(v: Seq<KPInstancePlan>) -> Seq<KPInstancePlanView> {
    v.map_values(|p: KPInstancePlan| p@)
}

proof fn lemma_create_instance_err_sticky(
    inss: Seq<InstanceView>,
    playlists: Seq<Seq<char>>,
    scenes: Seq<Seq<char>>,
    servers: Seq<(Seq<char>, KPGServerPlanView)>,
    k: int,
)
    requires
        0 <= k <= inss.len(),
        create_instance_spec(inss.take(k), playlists, scenes, servers) is Err,
    ensures
        create_instance_spec(inss, playlists, scenes, servers) == create_instance_spec(inss.take(k), playlists, scenes, servers),
    decreases inss.len() - k,
{
    if k < inss.len() {
        assert(inss.take(k + 1).drop_last() =~= inss.take(k));
        lemma_create_instance_err_sticky(inss, playlists, scenes, servers, k + 1);
    } else {
        assert(inss.take(k) =~= inss);
    }
}

/// Whether `f` is what `g` was, apart from the playlists, scenes, servers
/// and instances.
pub open spec fn same_identity(f: KPGFactory, g: KPGFactory) -> bool {
    &&& f.name == g.name
    &&& f.output == g.output
    &&& f.create_time == g.create_time
    &&& f.launch_time == g.launch_time
    &&& f.shutdown_time == g.shutdown_time
}

/// The message of a launch that names nothing the factory built.
pub open spec fn launch_error(code: KPGErrorCode, prefix: Seq<char>, name: Seq<char>) -> KPGErrorView {
    KPGErrorView { code, error: prefix + name }
}

/// The views of strings with one more string.
pub proof fn lemma_strings_view_push(v: Seq<String>, s: String)
    ensures
        strings_view(v.push(s)) == strings_view(v).push(s@),
{
    assert(strings_view(v.push(s)) =~= strings_view(v).push(s@));
}

/// The instances of all entries, in order, as `create_instance_spec` gives
/// them, or the first error.
#[verifier::rlimit(40)]
pub fn create_instance_plans(
    inss: &Vec<crate::config::Instance>,
    pls: &Vec<String>,
    scs: &Vec<String>,
    servers: &Vec<(String, KPGServerPlan)>,
) -> (res: Result<Vec<KPInstancePlan>, KPGError>)
    ensures
        match (res, create_instance_spec(instances_view(inss@), strings_view(pls@), strings_view(scs@), entries_view(servers@))) {
            (Ok(v), Ok(s)) => instance_plans_view(v@) == s,
            (Err(e), Err(s)) => e@ == s,
            _ => false,
        },
{
    let ghost all = instances_view(inss@);
    let ghost pn = strings_view(pls@);
    let ghost sn = strings_view(scs@);
    let ghost sv = entries_view(servers@);
    let mut out: Vec<KPInstancePlan> = Vec::new();
    let mut i: usize = 0;
    proof {
        assert(all.take(0) =~= Seq::<InstanceView>::empty());
        assert(instance_plans_view(out@) =~= seq![]);
    }
    while i < inss.len()
        invariant
            i <= inss.len(),
            all == instances_view(inss@),
            pn == strings_view(pls@),
            sn == strings_view(scs@),
            sv == entries_view(servers@),
            create_instance_spec(all.take(i as int), pn, sn, sv) matches Ok(ps) && instance_plans_view(out@) == ps,
        decreases inss.len() - i,
    {
        proof {
            assert(all.take(i + 1).drop_last() =~= all.take(i as int));
            assert(all.take(i + 1).last() == inss@[i as int]@);
        }
        match instance_plan(&inss[i], pls, scs, servers) {
            Err(e) => {
                proof { lemma_create_instance_err_sticky(all, pn, sn, sv, i + 1); }
                return Err(e);
            },
            Ok(p) => {
                let ghost before = out@;
                out.push(p);
                proof { assert(instance_plans_view(out@) =~= instance_plans_view(before).push(p@)); }
            },
        }
        i = i + 1;
    }
    proof { assert(all.take(all.len() as int) =~= all); }
    Ok(out)
}

/// The names that stay registered: a name registered again later is kept
/// only at its last registration, in order.
pub open spec fn latest_names(s: Seq<Seq<char>>) -> Seq<Seq<char>>
    decreases s.len(),
{
    if s.len() == 0 {
        seq![]
    } else if s.skip(1).contains(s[0]) {
        latest_names(s.skip(1))
    } else {
        seq![s[0]] + latest_names(s.skip(1))
    }
}

/// The names that stay registered, as `latest_names` gives them.
pub fn distinct_latest(names: &Vec<String>) -> (res: Vec<String>)
    ensures
        strings_view(res@) == latest_names(strings_view(names@)),
{
    let ghost all = strings_view(names@);
    let mut out: Vec<String> = Vec::new();
    let mut i: usize = 0;
    proof {
        assert(all.skip(0) =~= all);
        assert(strings_view(out@) + latest_names(all.skip(0)) =~= latest_names(all));
    }
    while i < names.len()
        invariant
            i <= names.len(),
            all == strings_view(names@),
            strings_view(out@) + latest_names(all.skip(i as int)) == latest_names(all),
        decreases names.len() - i,
    {
        let ghost rest = all.skip(i as int);
        proof {
            assert(rest[0] == all[i as int]);
            assert(rest.skip(1) =~= all.skip(i + 1));
        }
        let mut later = false;
        let mut j: usize = i + 1;
        while j < names.len()
            invariant
                i < j <= names.len(),
                all == strings_view(names@),
                later == (exists|k: int| i < k < j && all[k] == all[i as int]),
            decreases names.len() - j,
        {
            let eq = names[j] == names[i];
            proof {
                assert(all[j as int] == names@[j as int]@);
                assert(all[i as int] == names@[i as int]@);
            }
            if eq {
                later = true;
                assert(i < j < j + 1 && all[j as int] == all[i as int]);
            }
            j = j + 1;
        }
        proof {
            let r1 = all.skip(i + 1);
            if later {
                let k = choose|k: int| i < k < names.len() && all[k] == all[i as int];
                assert(r1[k - i - 1] == all[i as int]);
            } else {
                assert forall|m: int| 0 <= m < r1.len() implies r1[m] != all[i as int] by {
                    assert(r1[m] == all[m + i + 1]);
                }
            }
        }
        if !later {
            let ghost before = out@;
            let x = names[i].clone();
            out.push(x);
            proof {
                lemma_strings_view_push(before, x);
                assert(strings_view(out@) + latest_names(all.skip(i + 1))
                    =~= strings_view(before) + (seq![all[i as int]] + latest_names(all.skip(i + 1))));
            }
        }
        i = i + 1;
    }
    proof { assert(latest_names(all.skip(i as int)) =~= seq![]); }
    out
}

/// The names that stay registered hold each registered name exactly once:
/// no name twice, and every registered name among them.
pub proof fn lemma_latest_names_distinct(s: Seq<Seq<char>>)
    ensures
        forall|i: int, j: int| 0 <= i < j < latest_names(s).len() ==> latest_names(s)[i] != latest_names(s)[j],
        forall|x: Seq<char>| #![trigger s.contains(x)] #![trigger latest_names(s).contains(x)]
            s.contains(x) <==> latest_names(s).contains(x),
    decreases s.len(),
{
    if s.len() > 0 {
        let r = s.skip(1);
        lemma_latest_names_distinct(r);
        let l = latest_names(s);
        assert forall|x: Seq<char>| s.contains(x) <==> l.contains(x) by {
            if s.contains(x) {
                let k = choose|k: int| 0 <= k < s.len() && s[k] == x;
                if k > 0 {
                    assert(r[k - 1] == x);
                    assert(r.contains(x));
                    let m = choose|m: int| 0 <= m < latest_names(r).len() && latest_names(r)[m] == x;
                    if !r.contains(s[0]) {
                        assert(l[m + 1] == x);
                    } else {
                        assert(l[m] == x);
                    }
                } else {
                    if r.contains(s[0]) {
                        assert(latest_names(r).contains(x));
                    } else {
                        assert(l[0] == x);
                    }
                }
            }
            if l.contains(x) {
                let m = choose|m: int| 0 <= m < l.len() && l[m] == x;
                if r.contains(s[0]) {
                    assert(latest_names(r).contains(x));
                    let k = choose|k: int| 0 <= k < r.len() && r[k] == x;
                    assert(s[k + 1] == x);
                } else if m == 0 {
                    assert(s[0] == x);
                } else {
                    assert(latest_names(r)[m - 1] == x);
                    assert(latest_names(r).contains(x));
                    let k = choose|k: int| 0 <= k < r.len() && r[k] == x;
                    assert(s[k + 1] == x);
                }
            }
        }
        if !r.contains(s[0]) {
            assert forall|i: int, j: int| 0 <= i < j < l.len() implies l[i] != l[j] by {
                if i == 0 {
                    assert(l[j] == latest_names(r)[j - 1]);
                    assert(latest_names(r).contains(l[j]));
                    assert(r.contains(l[j]));
                } else {
                    assert(l[i] == latest_names(r)[i - 1]);
                    assert(l[j] == latest_names(r)[j - 1]);
                }
            }
        }
    }
}

impl Default for KPGFactory {
    /// A factory with an empty name that has built nothing.
    fn default() -> (res: KPGFactory)
        ensures
            res.name@ == Seq::<char>::empty(),
            res.output@.len() == 0,
            res.playlist@.len() == 0,
            res.scene@.len() == 0,
            res.server@.len() == 0,
            res.instance@.len() == 0,
            res.create_time == 0,
            res.launch_time == 0,
            res.shutdown_time == 0,
    {
        KPGFactory::new(String::new())
    }
}

impl KPGFactory {
    /// A factory called `name` that has built nothing yet.
    pub fn new(name: String) -> (res: KPGFactory)
        ensures
            res.name == name,
            res.output@.len() == 0,
            res.playlist@.len() == 0,
            res.scene@.len() == 0,
            res.server@.len() == 0,
            res.instance@.len() == 0,
            res.create_time == 0,
            res.launch_time == 0,
            res.shutdown_time == 0,
    {
        KPGFactory {
            name,
            output: Vec::new(),
            playlist: Vec::new(),
            scene: Vec::new(),
            server: Vec::new(),
            instance: Vec::new(),
            create_time: 0,
            launch_time: 0,
            shutdown_time: 0,
        }
    }

    /// Builds the playlists of the configuration with their media, replacing
    /// the factory's playlists; `media[i]` is what became of the resources
    /// of the `i`-th playlist (directories listed, media opened and added).
    /// On an error the factory is left as it was.
    pub fn create_playlist(&mut self, cfg: &Root, media: &Vec<Vec<KPResourceOutcome>>) -> (res: Result<(), KPGError>)
        requires
            playlists_fit(cfg@.playlist, outcome_table_view(media@)),
        ensures
            same_identity(*final(self), *old(self)),
            final(self).scene == old(self).scene,
            final(self).server == old(self).server,
            final(self).instance == old(self).instance,
            match create_playlist_spec(cfg@.playlist, outcome_table_view(media@)) {
                Ok(ps) => res is Ok && plans_view(final(self).playlist@) == ps,
                Err(e) => res matches Err(x) && x@ == e && final(self).playlist == old(self).playlist,
            },
    {
        match create_playlist_plans(&cfg.playlist, media) {
            Ok(ps) => { self.playlist = ps; Ok(()) },
            Err(e) => Err(e),
        }
    }

    /// Builds the scenes of the configuration with their plugins, replacing
    /// the factory's scenes; `plugins[i]` is what became of the checks of
    /// the plugins of the `i`-th scene. On an error the factory is left as
    /// it was.
    pub fn create_scene(&mut self, cfg: &Root, plugins: &Vec<Vec<KPPluginCheck>>) -> (res: Result<(), KPGError>)
        requires
            scenes_fit(cfg@.scene, check_table_view(plugins@)),
        ensures
            same_identity(*final(self), *old(self)),
            final(self).playlist == old(self).playlist,
            final(self).server == old(self).server,
            final(self).instance == old(self).instance,
            match create_scene_spec(cfg@.scene, check_table_view(plugins@)) {
                Ok(ss) => res is Ok && scene_plans_view(final(self).scene@) == ss,
                Err(e) => res matches Err(x) && x@ == e && final(self).scene == old(self).scene,
            },
    {
        match create_scene_plans(&cfg.scene, plugins) {
            Ok(ss) => { self.scene = ss; Ok(()) },
            Err(e) => Err(e),
        }
    }

    /// Builds the servers of the configuration, replacing the factory's
    /// servers; on an error the factory is left as it was.
    pub fn create_server(&mut self, cfg: &Root) -> (res: Result<(), KPGError>)
        ensures
            same_identity(*final(self), *old(self)),
            final(self).playlist == old(self).playlist,
            final(self).scene == old(self).scene,
            final(self).instance == old(self).instance,
            match create_server_spec(cfg.server@) {
                Ok(es) => res is Ok && entries_view(final(self).server@) == es,
                Err(e) => res matches Err(x) && x@ == e && final(self).server == old(self).server,
            },
    {
        match create_server_entries(&cfg.server) {
            Ok(es) => { self.server = es; Ok(()) },
            Err(e) => Err(e),
        }
    }

    /// Builds the outputs of the configuration: there is nothing to build,
    /// and the factory is left as it was.
    pub fn create_output(&mut self, cfg: &Root) -> (res: Result<(), KPGError>)
        ensures
            res is Ok,
            *final(self) == *old(self),
    {
        Ok(())
    }

    /// The names of the registered servers, each once, at its last
    /// registration.
    pub fn get_server_list(&self) -> (res: Vec<String>)
        ensures
            strings_view(res@) == latest_names(entries_view(self.server@).map_values(|e: (Seq<char>, KPGServerPlanView)| e.0)),
    {
        let ghost names = entries_view(self.server@).map_values(|e: (Seq<char>, KPGServerPlanView)| e.0);
        let mut out: Vec<String> = Vec::new();
        let mut i: usize = 0;
        while i < self.server.len()
            invariant
                i <= self.server.len(),
                names == entries_view(self.server@).map_values(|e: (Seq<char>, KPGServerPlanView)| e.0),
                strings_view(out@) == names.take(i as int),
            decreases self.server.len() - i,
        {
            let ghost before = out@;
            let x = self.server[i].0.clone();
            out.push(x);
            proof {
                lemma_strings_view_push(before, x);
                assert(names[i as int] == x@);
                assert(strings_view(out@) =~= names.take(i + 1));
            }
            i = i + 1;
        }
        proof { assert(names.take(i as int) =~= names); }
        distinct_latest(&out)
    }

    /// The names of the instances, each once, at its last definition.
    pub fn get_instance_list(&self) -> (res: Vec<String>)
        ensures
            strings_view(res@) == latest_names(instance_plans_view(self.instance@).map_values(|p: KPInstancePlanView| p.name)),
    {
        let ghost names = instance_plans_view(self.instance@).map_values(|p: KPInstancePlanView| p.name);
        let mut out: Vec<String> = Vec::new();
        let mut i: usize = 0;
        while i < self.instance.len()
            invariant
                i <= self.instance.len(),
                names == instance_plans_view(self.instance@).map_values(|p: KPInstancePlanView| p.name),
                strings_view(out@) == names.take(i as int),
            decreases self.instance.len() - i,
        {
            let ghost before = out@;
            let x = self.instance[i].name.clone();
            out.push(x);
            proof {
                lemma_strings_view_push(before, x);
                assert(names[i as int] == x@);
                assert(strings_view(out@) =~= names.take(i + 1));
            }
            i = i + 1;
        }
        proof { assert(names.take(i as int) =~= names); }
        distinct_latest(&out)
    }

    /// The names of the outputs.
    pub fn get_output_list(&self) -> (res: Vec<String>)
        ensures
            res@.len() == self.output@.len(),
            forall|i: int| 0 <= i < res@.len() ==> res@[i] == self.output@[i].name(),
    {
        let mut out: Vec<String> = Vec::new();
        let mut i: usize = 0;
        while i < self.output.len()
            invariant
                i <= self.output.len(),
                out@.len() == i,
                forall|k: int| 0 <= k < i ==> out@[k] == self.output@[k].name(),
            decreases self.output.len() - i,
        {
            out.push(self.output[i].get_name());
            i = i + 1;
        }
        out
    }

    /// The playlists the factory has built.
    pub fn get_playlist(&self) -> (res: &Vec<KPPlaylistPlan>)
        ensures
            *res == self.playlist,
    {
        &self.playlist
    }

    /// Which outputs a launch serves: all of them where no name is given,
    /// none otherwise.
    pub fn launch_output_names(&self, name: Option<&String>) -> (res: Vec<String>)
        ensures
            name is Some ==> res@.len() == 0,
            name is None ==> res@.len() == self.output@.len()
                && forall|i: int| 0 <= i < res@.len() ==> res@[i] == self.output@[i].name(),
    {
        match name {
            None => self.get_output_list(),
            Some(_) => Vec::new(),
        }
    }

    /// The instance defined last under `name`, if any.
    pub fn get_instance(&self, name: &String) -> (res: Option<&KPInstancePlan>)
        ensures
            match res {
                None => forall|i: int| 0 <= i < self.instance@.len() ==> self.instance@[i].name@ != name@,
                Some(p) => exists|i: int| 0 <= i < self.instance@.len() && self.instance@[i] == *p
                    && p.name@ == name@
                    && forall|j: int| i < j < self.instance@.len() ==> self.instance@[j].name@ != name@,
            },
    {
        let mut k: usize = self.instance.len();
        while k > 0
            invariant
                k <= self.instance.len(),
                forall|j: int| k <= j < self.instance@.len() ==> self.instance@[j].name@ != name@,
            decreases k,
        {
            if self.instance[k - 1].name == *name {
                return Some(&self.instance[k - 1]);
            }
            k = k - 1;
        }
        None
    }

    /// The names of the factory's playlists.
    fn playlist_name_list(&self) -> (res: Vec<String>)
        ensures
            strings_view(res@) == playlist_names(plans_view(self.playlist@)),
    {
        let mut out: Vec<String> = Vec::new();
        let mut i: usize = 0;
        while i < self.playlist.len()
            invariant
                i <= self.playlist.len(),
                strings_view(out@) == playlist_names(plans_view(self.playlist@)).take(i as int),
            decreases self.playlist.len() - i,
        {
            let ghost before = out@;
            let x = self.playlist[i].name.clone();
            out.push(x);
            proof {
                lemma_strings_view_push(before, x);
                assert(playlist_names(plans_view(self.playlist@))[i as int] == x@);
                assert(strings_view(out@) =~= playlist_names(plans_view(self.playlist@)).take(i + 1));
            }
            i = i + 1;
        }
        proof { assert(playlist_names(plans_view(self.playlist@)).take(i as int) =~= playlist_names(plans_view(self.playlist@))); }
        out
    }

    /// The names of the factory's scenes.
    fn scene_name_list(&self) -> (res: Vec<String>)
        ensures
            strings_view(res@) == scene_names(scene_plans_view(self.scene@)),
    {
        let mut out: Vec<String> = Vec::new();
        let mut i: usize = 0;
        while i < self.scene.len()
            invariant
                i <= self.scene.len(),
                strings_view(out@) == scene_names(scene_plans_view(self.scene@)).take(i as int),
            decreases self.scene.len() - i,
        {
            let ghost before = out@;
            let x = self.scene[i].name.clone();
            out.push(x);
            proof {
                lemma_strings_view_push(before, x);
                assert(scene_names(scene_plans_view(self.scene@))[i as int] == x@);
                assert(strings_view(out@) =~= scene_names(scene_plans_view(self.scene@)).take(i + 1));
            }
            i = i + 1;
        }
        proof { assert(scene_names(scene_plans_view(self.scene@)).take(i as int) =~= scene_names(scene_plans_view(self.scene@))); }
        out
    }

    /// Builds the instances of the configuration against the factory's
    /// playlists, scenes and servers, replacing the factory's instances; on
    /// an error the factory is left as it was.
    pub fn create_instance(&mut self, cfg: &Root) -> (res: Result<(), KPGError>)
        ensures
            same_identity(*final(self), *old(self)),
            final(self).playlist == old(self).playlist,
            final(self).scene == old(self).scene,
            final(self).server == old(self).server,
            match create_instance_spec(cfg@.instance, playlist_names(plans_view(old(self).playlist@)),
                scene_names(scene_plans_view(old(self).scene@)), entries_view(old(self).server@)) {
                Ok(ps) => res is Ok && instance_plans_view(final(self).instance@) == ps,
                Err(e) => res matches Err(x) && x@ == e && final(self).instance == old(self).instance,
            },
    {
        let pls = self.playlist_name_list();
        let scs = self.scene_name_list();
        match create_instance_plans(&cfg.instance, &pls, &scs, &self.server) {
            Ok(v) => { self.instance = v; Ok(()) },
            Err(e) => Err(e),
        }
    }

    /// Builds everything the configuration describes: playlists, scenes,
    /// servers, then instances; the first error stops the building, and
    /// what was built before it stays. On success the creation time is set
    /// to the current time where the clock gives one.
    pub fn create(&mut self, cfg: &Root, media: &Vec<Vec<KPResourceOutcome>>, plugins: &Vec<Vec<KPPluginCheck>>)
        -> (res: Result<(), KPGError>)
        requires
            playlists_fit(cfg@.playlist, outcome_table_view(media@)),
            scenes_fit(cfg@.scene, check_table_view(plugins@)),
        ensures
            final(self).name == old(self).name,
            final(self).output == old(self).output,
            final(self).launch_time == old(self).launch_time,
            final(self).shutdown_time == old(self).shutdown_time,
            match create_playlist_spec(cfg@.playlist, outcome_table_view(media@)) {
                Err(e) => res matches Err(x) && x@ == e,
                Ok(ps) => match create_scene_spec(cfg@.scene, check_table_view(plugins@)) {
                    Err(e) => res matches Err(x) && x@ == e && plans_view(final(self).playlist@) == ps,
                    Ok(ss) => {
                        &&& plans_view(final(self).playlist@) == ps
                        &&& scene_plans_view(final(self).scene@) == ss
                        &&& match create_server_spec(cfg.server@) {
                            Err(e) => res matches Err(x) && x@ == e,
                            Ok(es) => {
                                &&& entries_view(final(self).server@) == es
                                &&& match create_instance_spec(cfg@.instance, playlist_names(ps), scene_names(ss), es) {
                                    Err(e) => res matches Err(x) && x@ == e,
                                    Ok(is) => res is Ok && instance_plans_view(final(self).instance@) == is,
                                }
                            },
                        }
                    },
                },
            },
    {
        match self.create_playlist(cfg, media) { Err(e) => { return Err(e); }, Ok(_) => {} }
        match self.create_scene(cfg, plugins) { Err(e) => { return Err(e); }, Ok(_) => {} }
        match self.create_server(cfg) { Err(e) => { return Err(e); }, Ok(_) => {} }
        match self.create_output(cfg) { Err(e) => { return Err(e); }, Ok(_) => {} }
        match self.create_instance(cfg) { Err(e) => { return Err(e); }, Ok(_) => {} }
        match crate::util::time::KPDuration::current_mill_timestamp() {
            Some(t) => { self.create_time = t; },
            None => {},
        }
        Ok(())
    }

    /// Which servers a launch starts: all of them where no name is given,
    /// the one registered under the name otherwise; a name under which no
    /// server is registered is refused with `KPGFactoryLaunchServerFailed`.
    pub fn launch_server_names(&self, name: Option<&String>) -> (res: Result<Vec<String>, KPGError>)
        ensures
            match name {
                None => res matches Ok(v) && strings_view(v@) == latest_names(entries_view(self.server@).map_values(|e: (Seq<char>, KPGServerPlanView)| e.0)),
                Some(n) => if registered(entries_view(self.server@), n@) is Some {
                    res matches Ok(v) && strings_view(v@) == seq![n@]
                } else {
                    res matches Err(e) && e@ == launch_error(KPGErrorCode::KPGFactoryLaunchServerFailed, "name not found. name: "@, n@)
                },
            },
    {
        match name {
            None => Ok(self.get_server_list()),
            Some(n) => {
                match find_registered(&self.server, n) {
                    Some(_) => {
                        let v = vec![n.clone()];
                        assert(strings_view(v@) =~= seq![n@]);
                        Ok(v)
                    },
                    None => {
                        let mut m = string_of("name not found. name: ");
                        append_str(&mut m, n.as_str());
                        proof { reveal_strlit("name not found. name: "); }
                        Err(KPGError::new_with_string(KPGErrorCode::KPGFactoryLaunchServerFailed, m))
                    },
                }
            },
        }
    }

    /// Which instances a launch starts: all of them where no name is given,
    /// the first one of that name otherwise; a name of no instance is refused
    /// with `KPGFactoryLaunchInstanceFailed`.
    pub fn launch_instance_names(&self, name: Option<&String>) -> (res: Result<Vec<String>, KPGError>)
        ensures
            match name {
                None => res matches Ok(v) && strings_view(v@) == latest_names(instance_plans_view(self.instance@).map_values(|p: KPInstancePlanView| p.name)),
                Some(n) => if instance_plans_view(self.instance@).map_values(|p: KPInstancePlanView| p.name).contains(n@) {
                    res matches Ok(v) && strings_view(v@) == seq![n@]
                } else {
                    res matches Err(e) && e@ == launch_error(KPGErrorCode::KPGFactoryLaunchInstanceFailed, "instance name not found. name: "@, n@)
                },
            },
    {
        let ghost names = instance_plans_view(self.instance@).map_values(|p: KPInstancePlanView| p.name);
        let mut out: Vec<String> = Vec::new();
        let mut i: usize = 0;
        while i < self.instance.len()
            invariant
                i <= self.instance.len(),
                names == instance_plans_view(self.instance@).map_values(|p: KPInstancePlanView| p.name),
                strings_view(out@) == names.take(i as int),
            decreases self.instance.len() - i,
        {
            let ghost before = out@;
            let x = self.instance[i].name.clone();
            out.push(x);
            proof {
                lemma_strings_view_push(before, x);
                assert(names[i as int] == x@);
                assert(strings_view(out@) =~= names.take(i + 1));
            }
            i = i + 1;
        }
        proof { assert(names.take(i as int) =~= names); }
        match name {
            None => Ok(distinct_latest(&out)),
            Some(n) => {
                if crate::factory::instance::contains_name(&out, n) {
                    let v = vec![n.clone()];
                    assert(strings_view(v@) =~= seq![n@]);
                    Ok(v)
                } else {
                    let mut m = string_of("instance name not found. name: ");
                    append_str(&mut m, n.as_str());
                    proof { reveal_strlit("instance name not found. name: "); }
                    Err(KPGError::new_with_string(KPGErrorCode::KPGFactoryLaunchInstanceFailed, m))
                }
            },
        }
    }
}

} // verus!

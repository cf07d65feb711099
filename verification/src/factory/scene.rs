//! What the factory makes of the configuration's scenes: the plugins each
//! scene loads, where their files lie, whether a file must be downloaded,
//! and, from what became of the checks of each plugin, the scene or the
//! first error. Asking the plugin center, downloading and reading files is
//! left to the caller.

use vstd::prelude::*;
use crate::config::{Scene, SceneView, Group, GroupView, Params, ParamsView, groups_view, scenes_view};
use crate::factory::general::plugin_file_path_spec;
use crate::factory::KPGFactory;
use crate::util::error::{KPGError, KPGErrorCode, KPGErrorView};
use crate::util::text::{string_of, append_str};
use crate::util::rand::{md5_of, hex_lower};
use crate::util::file::compare_md5;

verus! {

/// A plugin of a scene: its name in the scene, its application, the path of
/// its file, its parameters, and the content of its file.
#[derive(Debug)]
pub struct KPScenePluginPlan {
    pub name: String,
    pub app: String,
    pub file_path: String,
    pub params: Params,
    pub content: Vec<u8>,
}

/// A scene: its name and its plugins.
#[derive(Debug)]
pub struct KPScenePlan {
    pub name: String,
    pub items: Vec<KPScenePluginPlan>,
}

#[verifier::ext_equal]
pub struct KPScenePluginPlanView {
    pub name: Seq<char>,
    pub app: Seq<char>,
    pub file_path: Seq<char>,
    pub params: ParamsView,
    pub content: Seq<u8>,
}

#[verifier::ext_equal]
pub struct KPScenePlanView {
    pub name: Seq<char>,
    pub items: Seq<KPScenePluginPlanView>,
}

impl View for KPScenePluginPlan {
    type V = KPScenePluginPlanView;

    open spec fn view(&self) -> KPScenePluginPlanView {
        KPScenePluginPlanView {
            name: self.name@,
            app: self.app@,
            file_path: self.file_path@,
            params: self.params@,
            content: self.content@,
        }
    }
}

impl View for KPScenePlan {
    type V = KPScenePlanView;

    open spec fn view(&self) -> KPScenePlanView {
        KPScenePlanView { name: self.name@, items: self.items@.map_values(|i: KPScenePluginPlan| i@) }
    }
}

/// The views of scene plans.
pub open spec fn scene_plans_view(v: Seq<KPScenePlan>) -> Seq<KPScenePlanView> {
    v.map_values(|s: KPScenePlan| s@)
}

/// What the plugin center says of a plugin: where its file can be
/// downloaded, and the file's MD5 digest in lowercase hexadecimal.
#[derive(Debug, Clone)]
pub struct KPPluginInformation {
    pub url: String,
    pub hash: String,
}

/// What became of the checks of a scene's plugin, in the order they are
/// made: asking the plugin center, reading the plugin's file, downloading
/// it where its digest differs, and reading it for the plugin.
#[derive(Debug)]
pub struct KPPluginCheck {
    /// The plugin center's information, or the error of asking for it.
    pub information: Result<KPPluginInformation, KPGError>,
    /// The content of the plugin's file before any download; `None` where
    /// it could not be read.
    pub local: Option<Vec<u8>>,
    /// The outcome of the download, with the transport's message where it
    /// failed; `Ok` where none was made.
    pub download: Result<(), String>,
    /// The content of the plugin's file after the check, or the error of
    /// reading it.
    pub content: Result<Vec<u8>, KPGError>,
}

#[verifier::ext_equal]
pub struct KPPluginInformationView {
    pub url: Seq<char>,
    pub hash: Seq<char>,
}

#[verifier::ext_equal]
pub struct KPPluginCheckView {
    pub information: Result<KPPluginInformationView, KPGErrorView>,
    pub local: Option<Seq<u8>>,
    pub download: Result<(), Seq<char>>,
    pub content: Result<Seq<u8>, KPGErrorView>,
}

impl View for KPPluginInformation {
    type V = KPPluginInformationView;

    open spec fn view(&self) -> KPPluginInformationView {
        KPPluginInformationView { url: self.url@, hash: self.hash@ }
    }
}

impl View for KPPluginCheck {
    type V = KPPluginCheckView;

    open spec fn view(&self) -> KPPluginCheckView {
        KPPluginCheckView {
            information: match self.information { Ok(i) => Ok(i@), Err(e) => Err(e@) },
            local: match self.local { Some(b) => Some(b@), None => None },
            download: match self.download { Ok(_) => Ok(()), Err(m) => Err(m@) },
            content: match self.content { Ok(b) => Ok(b@), Err(e) => Err(e@) },
        }
    }
}

/// The views of the checks of a scene's plugins.
pub open spec fn checks_view(v: Seq<KPPluginCheck>) -> Seq<KPPluginCheckView> {
    v.map_values(|c: KPPluginCheck| c@)
}

/// The views of the checks of several scenes.
pub open spec fn check_table_view(v: Seq<Vec<KPPluginCheck>>) -> Seq<Seq<KPPluginCheckView>> {
    v.map_values(|cs: Vec<KPPluginCheck>| checks_view(cs@))
}

/// Whether there is a row of checks per scene entry, one check per item.
pub open spec fn scenes_fit(ss: Seq<SceneView>, checks: Seq<Seq<KPPluginCheckView>>) -> bool {
    &&& ss.len() == checks.len()
    &&& forall|i: int| 0 <= i < ss.len() ==> (#[trigger] ss[i]).group.len() == checks[i].len()
}

/// Whether a plugin's file must be downloaded: where it could not be read,
/// or where its MD5 digest is not the expected one.
pub open spec fn needs_download_spec(local: Option<Seq<u8>>, hash: Seq<char>) -> bool {
    match local {
        Some(b) => hex_lower(md5_of(b)) != hash,
        None => true,
    }
}

/// The error of a plugin file that could not be downloaded.
pub open spec fn download_failed_spec(app: Seq<char>, url: Seq<char>, err: Seq<char>) -> KPGErrorView {
    KPGErrorView {
        code: KPGErrorCode::KPGPluginCenterDownloadFailed,
        error: "download plugin file failed. app: "@ + app + ", url: "@ + url + ", error: "@ + err,
    }
}

/// The plugin a scene item loads, with the content of its file.
pub open spec fn scene_item_spec(g: GroupView, content: Seq<u8>) -> KPScenePluginPlanView {
    KPScenePluginPlanView { name: g.name, app: g.app, file_path: plugin_file_path_spec(g.app), params: g.params, content }
}

/// The plugin a scene item loads, given what became of its checks: the
/// plugin center's error; else, where the file had to be downloaded and
/// the download failed, its error; else the error of reading the file, or
/// the plugin with the file's content.
pub open spec fn plugin_check_spec(g: GroupView, c: KPPluginCheckView) -> Result<KPScenePluginPlanView, KPGErrorView> {
    match c.information {
        Err(e) => Err(e),
        Ok(info) => if needs_download_spec(c.local, info.hash) && c.download is Err {
            Err(download_failed_spec(g.app, info.url, c.download->Err_0))
        } else {
            match c.content {
                Err(e) => Err(e),
                Ok(b) => Ok(scene_item_spec(g, b)),
            }
        },
    }
}

/// The plugins of a scene's items, in order, or the first error; `cs[j]`
/// is what became of the checks of item `j`.
pub open spec fn scene_items_spec(gs: Seq<GroupView>, cs: Seq<KPPluginCheckView>)
    -> Result<Seq<KPScenePluginPlanView>, KPGErrorView>
    decreases gs.len(),
{
    if gs.len() == 0 {
        Ok(seq![])
    } else {
        match scene_items_spec(gs.drop_last(), cs) {
            Err(e) => Err(e),
            Ok(items) => match plugin_check_spec(gs.last(), cs[gs.len() - 1]) {
                Err(e) => Err(e),
                Ok(it) => Ok(items.push(it)),
            },
        }
    }
}

/// The scene a configuration entry describes, or the first error of its
/// plugins.
pub open spec fn scene_plan_spec(s: SceneView, cs: Seq<KPPluginCheckView>) -> Result<KPScenePlanView, KPGErrorView> {
    match scene_items_spec(s.group, cs) {
        Err(e) => Err(e),
        Ok(items) => Ok(KPScenePlanView { name: s.name, items }),
    }
}

/// The scenes of all entries, in order, or the first error; `checks[i]`
/// is what became of the checks of the plugins of entry `i`.
pub open spec fn create_scene_spec(ss: Seq<SceneView>, checks: Seq<Seq<KPPluginCheckView>>)
    -> Result<Seq<KPScenePlanView>, KPGErrorView>
    decreases ss.len(),
{
    if ss.len() == 0 {
        Ok(seq![])
    } else {
        match create_scene_spec(ss.drop_last(), checks) {
            Err(e) => Err(e),
            Ok(ps) => match scene_plan_spec(ss.last(), checks[ss.len() - 1]) {
                Err(e) => Err(e),
                Ok(p) => Ok(ps.push(p)),
            },
        }
    }
}

fn clone_params(p: &Params) -> (res: Params)
    ensures
        res@ == p@,
{
    Params { text: p.text.clone(), y: p.y, font_size: p.font_size }
}

fn clone_bytes(v: &Vec<u8>) -> (res: Vec<u8>)
    ensures
        res@ == v@,
{
    let mut out: Vec<u8> = Vec::new();
    let mut i: usize = 0;
    while i < v.len()
        invariant
            i <= v.len(),
            out@ == v@.take(i as int),
        decreases v.len() - i,
    {
        out.push(v[i]);
        proof { assert(out@ =~= v@.take(i + 1)); }
        i = i + 1;
    }
    proof { assert(v@.take(v@.len() as int) =~= v@); }
    out
}

fn clone_error(e: &KPGError) -> (res: KPGError)
    ensures
        res@ == e@,
{
    KPGError::new_with_string(e.code(), e.message())
}

/// Whether a plugin's file must be downloaded, as `needs_download_spec`
/// says: where it could not be read, or where the lowercase hexadecimal
/// MD5 digest of its content is not `hash`.
pub fn plugin_needs_download(local: &Option<Vec<u8>>, hash: &String) -> (res: bool)
    ensures
        res == needs_download_spec(match local { Some(b) => Some(b@), None => None }, hash@),
{
    match local {
        Some(b) => !compare_md5(b, hash),
        None => true,
    }
}

/// The plugin a scene item loads, given what became of its checks, as
/// `plugin_check_spec` says.
pub fn plugin_check(g: &Group, c: &KPPluginCheck) -> (res: Result<KPScenePluginPlan, KPGError>)
    ensures
        match (res, plugin_check_spec(g@, c@)) {
            (Ok(p), Ok(s)) => p@ == s,
            (Err(e), Err(s)) => e@ == s,
            _ => false,
        },
{
    let info = match &c.information {
        Err(e) => { return Err(clone_error(e)); },
        Ok(i) => i,
    };
    if plugin_needs_download(&c.local, &info.hash) {
        match &c.download {
            Err(m) => { return Err(download_failed_error(&g.app, &info.url, m)); },
            Ok(_) => {},
        }
    }
    match &c.content {
        Err(e) => Err(clone_error(e)),
        Ok(b) => {
            let it = KPScenePluginPlan {
                name: g.name.clone(),
                app: g.app.clone(),
                file_path: KPGFactory::get_plugin_file_path(&g.app),
                params: clone_params(&g.params),
                content: clone_bytes(b),
            };
            Ok(it)
        },
    }
}

proof fn lemma_scene_items_err_sticky(gs: Seq<GroupView>, cs: Seq<KPPluginCheckView>, k: int)
    requires
        0 <= k <= gs.len(),
        scene_items_spec(gs.take(k), cs) is Err,
    ensures
        scene_items_spec(gs, cs) == scene_items_spec(gs.take(k), cs),
    decreases gs.len() - k,
{
    if k < gs.len() {
        assert(gs.take(k + 1).drop_last() =~= gs.take(k));
        lemma_scene_items_err_sticky(gs, cs, k + 1);
    } else {
        assert(gs.take(k) =~= gs);
    }
}

/// The scene a configuration entry describes, given what became of the
/// checks of its plugins (`cs[j]` for item `j`), as `scene_plan_spec` says.
pub fn scene_plan(s: &Scene, cs: &Vec<KPPluginCheck>) -> (res: Result<KPScenePlan, KPGError>)
    requires
        s@.group.len() == cs@.len(),
    ensures
        match (res, scene_plan_spec(s@, checks_view(cs@))) {
            (Ok(p), Ok(v)) => p@ == v,
            (Err(e), Err(v)) => e@ == v,
            _ => false,
        },
{
    let mut items: Vec<KPScenePluginPlan> = Vec::new();
    let ghost gs = s@.group;
    let ghost cv = checks_view(cs@);
    let mut i: usize = 0;
    proof {
        assert(gs.take(0) =~= Seq::<GroupView>::empty());
        assert(items@.map_values(|x: KPScenePluginPlan| x@) =~= seq![]);
    }
    while i < s.group.len()
        invariant
            i <= s.group.len(),
            gs == groups_view(s.group@),
            cv == checks_view(cs@),
            gs.len() == cs@.len(),
            scene_items_spec(gs.take(i as int), cv) matches Ok(its) && items@.map_values(|x: KPScenePluginPlan| x@) == its,
        decreases s.group.len() - i,
    {
        proof {
            assert(gs.take(i + 1).drop_last() =~= gs.take(i as int));
            assert(gs.take(i + 1).last() == s.group@[i as int]@);
            assert(cv[i as int] == cs@[i as int]@);
        }
        match plugin_check(&s.group[i], &cs[i]) {
            Err(e) => {
                proof { lemma_scene_items_err_sticky(gs, cv, i + 1); }
                return Err(e);
            },
            Ok(it) => {
                let ghost before = items@;
                items.push(it);
                proof {
                    assert(items@.map_values(|x: KPScenePluginPlan| x@) =~= before.map_values(|x: KPScenePluginPlan| x@).push(it@));
                }
            },
        }
        i = i + 1;
    }
    proof { assert(gs.take(gs.len() as int) =~= gs); }
    let res = KPScenePlan { name: s.name.clone(), items };
    assert(res@ =~= scene_plan_spec(s@, cv)->Ok_0);
    Ok(res)
}

proof fn lemma_create_scene_err_sticky(ss: Seq<SceneView>, checks: Seq<Seq<KPPluginCheckView>>, k: int)
    requires
        0 <= k <= ss.len(),
        create_scene_spec(ss.take(k), checks) is Err,
    ensures
        create_scene_spec(ss, checks) == create_scene_spec(ss.take(k), checks),
    decreases ss.len() - k,
{
    if k < ss.len() {
        assert(ss.take(k + 1).drop_last() =~= ss.take(k));
        lemma_create_scene_err_sticky(ss, checks, k + 1);
    } else {
        assert(ss.take(k) =~= ss);
    }
}

/// The scenes of all entries, in order, or the first error; `checks[i]` is
/// what became of the checks of the plugins of entry `i`.
pub fn create_scene_plans(ss: &Vec<Scene>, checks: &Vec<Vec<KPPluginCheck>>) -> (res: Result<Vec<KPScenePlan>, KPGError>)
    requires
        scenes_fit(scenes_view(ss@), check_table_view(checks@)),
    ensures
        match (res, create_scene_spec(scenes_view(ss@), check_table_view(checks@))) {
            (Ok(v), Ok(s)) => scene_plans_view(v@) == s,
            (Err(e), Err(s)) => e@ == s,
            _ => false,
        },
{
    let ghost all = scenes_view(ss@);
    let ghost ct = check_table_view(checks@);
    let mut out: Vec<KPScenePlan> = Vec::new();
    let mut i: usize = 0;
    proof {
        assert(all.take(0) =~= Seq::<SceneView>::empty());
        assert(scene_plans_view(out@) =~= seq![]);
    }
    while i < ss.len()
        invariant
            i <= ss.len(),
            all == scenes_view(ss@),
            ct == check_table_view(checks@),
            scenes_fit(all, ct),
            create_scene_spec(all.take(i as int), ct) matches Ok(ps) && scene_plans_view(out@) == ps,
        decreases ss.len() - i,
    {
        proof {
            assert(all.take(i + 1).drop_last() =~= all.take(i as int));
            assert(all.take(i + 1).last() == ss@[i as int]@);
            assert(ct[i as int] == checks_view(checks@[i as int]@));
            assert(all[i as int].group.len() == ct[i as int].len());
        }
        match scene_plan(&ss[i], &checks[i]) {
            Err(e) => {
                proof { lemma_create_scene_err_sticky(all, ct, i + 1); }
                return Err(e);
            },
            Ok(p) => {
                let ghost before = out@;
                out.push(p);
                proof { assert(scene_plans_view(out@) =~= scene_plans_view(before).push(p@)); }
            },
        }
        i = i + 1;
    }
    proof { assert(all.take(all.len() as int) =~= all); }
    Ok(out)
}

/// A plugin whose file already has the expected digest is not
/// downloaded: what became of a download does not change its outcome.
pub proof fn lemma_matching_file_kept(g: GroupView, c: KPPluginCheckView, d: Result<(), Seq<char>>)
    requires
        c.information matches Ok(info) && c.local matches Some(b) && hex_lower(md5_of(b)) == info.hash,
    ensures
        plugin_check_spec(g, c) == plugin_check_spec(g, KPPluginCheckView { download: d, ..c }),
{
}

/// The error of a plugin file that could not be downloaded.
pub fn download_failed_error(app: &String, url: &String, err: &String) -> (res: KPGError)
    ensures
        res@ == download_failed_spec(app@, url@, err@),
{
    let mut m = string_of("download plugin file failed. app: ");
    append_str(&mut m, app.as_str());
    append_str(&mut m, ", url: ");
    append_str(&mut m, url.as_str());
    append_str(&mut m, ", error: ");
    append_str(&mut m, err.as_str());
    KPGError::new_with_string(KPGErrorCode::KPGPluginCenterDownloadFailed, m)
}

/// The error of plugin information that could not be read from the plugin
/// center's answer.
pub fn plugin_information_error(app: &String, url: &String, response: &String, err: &String) -> (res: KPGError)
    ensures
        res@ == (KPGErrorView {
            code: KPGErrorCode::KPGPluginCenterGetPluginInformationFailed,
            error: "get plugin information parse json format failed. app: "@ + app@ + ", url: "@ + url@
                + ", response: "@ + response@ + ", error: "@ + err@,
        }),
{
    let mut m = string_of("get plugin information parse json format failed. app: ");
    append_str(&mut m, app.as_str());
    append_str(&mut m, ", url: ");
    append_str(&mut m, url.as_str());
    append_str(&mut m, ", response: ");
    append_str(&mut m, response.as_str());
    append_str(&mut m, ", error: ");
    append_str(&mut m, err.as_str());
    KPGError::new_with_string(KPGErrorCode::KPGPluginCenterGetPluginInformationFailed, m)
}

/// The error of font information that could not be read from the plugin
/// center's answer.
pub fn font_error(name: &String, url: &String, response: &String, err: &String) -> (res: KPGError)
    ensures
        res@ == (KPGErrorView {
            code: KPGErrorCode::KPGPluginCenterGetFontFailed,
            error: "get font failed. name: "@ + name@ + ", url: "@ + url@ + ", response: "@ + response@
                + ", error: "@ + err@,
        }),
{
    let mut m = string_of("get font failed. name: ");
    append_str(&mut m, name.as_str());
    append_str(&mut m, ", url: ");
    append_str(&mut m, url.as_str());
    append_str(&mut m, ", response: ");
    append_str(&mut m, response.as_str());
    append_str(&mut m, ", error: ");
    append_str(&mut m, err.as_str());
    KPGError::new_with_string(KPGErrorCode::KPGPluginCenterGetFontFailed, m)
}

} // verus!

//! What the factory makes of the configuration's playlists: each playlist's
//! play mode, the media to open for each of its resources, and, from what
//! became of listing directories and opening media, the media it plays.
//! Opening the media and listing directories is left to the caller.

use vstd::prelude::*;
use crate::config::{Playlist, PlaylistView, ResourceType, ResourceTypeView, Stream, strings_view, playlists_view};
use crate::util::error::{KPGError, KPGErrorCode, KPGErrorView};
use crate::util::text::{string_of, append_str, str_equal};
use crate::factory::server::config_error;
use crate::server::{debug_str, str_debug};
use crate::util::file::read_directory_error;

verus! {

/// The order in which a playlist plays its media.
#[derive(Debug, Clone, Copy, PartialEq, Eq, Structural)]
pub enum KPPlayModel {
    List,
    Loop,
    Random,
}

/// A kind of media stream.
#[derive(Debug, Clone, Copy, PartialEq, Eq, Structural)]
pub enum KPMediaKind {
    Video,
    Audio,
    Subtitle,
}

/// A media file to open: its path, the name, start and end it is played
/// with, and the stream index to use for each listed kind.
#[derive(Debug)]
pub struct KPMediaPlan {
    pub path: String,
    pub name: Option<String>,
    pub seek: Option<i32>,
    pub end: Option<i32>,
    pub expect_streams: Vec<(KPMediaKind, u32)>,
}

/// What a resource of a playlist adds: one media file, or every file of a
/// directory whose extension is listed.
#[derive(Debug)]
pub enum KPPlaylistItem {
    Media(KPMediaPlan),
    Directory { directory: String, extension: Vec<String> },
}

/// A playlist to build: its name, start point, play mode, what its
/// resources add, and the media it plays once they are opened.
#[derive(Debug)]
pub struct KPPlaylistPlan {
    pub name: String,
    pub start_point: usize,
    pub mode: KPPlayModel,
    pub items: Vec<KPPlaylistItem>,
    pub media: Vec<KPMediaPlan>,
}

#[verifier::ext_equal]
pub struct KPMediaPlanView {
    pub path: Seq<char>,
    pub name: Option<Seq<char>>,
    pub seek: Option<i32>,
    pub end: Option<i32>,
    pub expect_streams: Seq<(KPMediaKind, u32)>,
}

#[verifier::ext_equal]
pub enum KPPlaylistItemView {
    Media(KPMediaPlanView),
    Directory { directory: Seq<char>, extension: Seq<Seq<char>> },
}

#[verifier::ext_equal]
pub struct KPPlaylistPlanView {
    pub name: Seq<char>,
    pub start_point: usize,
    pub mode: KPPlayModel,
    pub items: Seq<KPPlaylistItemView>,
    pub media: Seq<KPMediaPlanView>,
}

impl View for KPMediaPlan {
    type V = KPMediaPlanView;

    open spec fn view(&self) -> KPMediaPlanView {
        KPMediaPlanView {
            path: self.path@,
            name: match self.name { Some(n) => Some(n@), None => None },
            seek: self.seek,
            end: self.end,
            expect_streams: self.expect_streams@,
        }
    }
}

impl View for KPPlaylistItem {
    type V = KPPlaylistItemView;

    open spec fn view(&self) -> KPPlaylistItemView {
        match self {
            KPPlaylistItem::Media(m) => KPPlaylistItemView::Media(m@),
            KPPlaylistItem::Directory { directory, extension } =>
                KPPlaylistItemView::Directory { directory: directory@, extension: strings_view(extension@) },
        }
    }
}

/// The views of playlist items.
pub open spec fn items_view(v: Seq<KPPlaylistItem>) -> Seq<KPPlaylistItemView> {
    v.map_values(|i: KPPlaylistItem| i@)
}

impl View for KPPlaylistPlan {
    type V = KPPlaylistPlanView;

    open spec fn view(&self) -> KPPlaylistPlanView {
        KPPlaylistPlanView {
            name: self.name@,
            start_point: self.start_point,
            mode: self.mode,
            items: items_view(self.items@),
            media: media_view(self.media@),
        }
    }
}

/// The views of media plans.
pub open spec fn media_view(v: Seq<KPMediaPlan>) -> Seq<KPMediaPlanView> {
    v.map_values(|m: KPMediaPlan| m@)
}

/// The views of playlist plans.
pub open spec fn plans_view(v: Seq<KPPlaylistPlan>) -> Seq<KPPlaylistPlanView> {
    v.map_values(|p: KPPlaylistPlan| p@)
}

/// The play mode a configuration names: `list`, `loop` or `random`.
pub open spec fn play_model_spec(mode: Seq<char>) -> Option<KPPlayModel> {
    if mode == "list"@ {
        Some(KPPlayModel::List)
    } else if mode == "loop"@ {
        Some(KPPlayModel::Loop)
    } else if mode == "random"@ {
        Some(KPPlayModel::Random)
    } else {
        None
    }
}

/// The stream indexes a resource asks for: each non-negative index of the
/// video, audio and subtitle, in that order.
pub open spec fn expect_streams_spec(stream: Option<Stream>) -> Seq<(KPMediaKind, u32)> {
    match stream {
        None => seq![],
        Some(s) =>
            (if s.video >= 0 { seq![(KPMediaKind::Video, s.video as u32)] } else { seq![] })
            + (if s.audio >= 0 { seq![(KPMediaKind::Audio, s.audio as u32)] } else { seq![] })
            + (if s.subtitle >= 0 { seq![(KPMediaKind::Subtitle, s.subtitle as u32)] } else { seq![] }),
    }
}

/// What a resource adds to its playlist.
pub open spec fn item_spec(r: ResourceTypeView) -> KPPlaylistItemView {
    match r {
        ResourceTypeView::ResourceSingle { path } => KPPlaylistItemView::Media(KPMediaPlanView {
            path, name: None, seek: None, end: None, expect_streams: seq![],
        }),
        ResourceTypeView::ResourceDirectory { directory, extension } =>
            KPPlaylistItemView::Directory { directory, extension },
        ResourceTypeView::ResourceDetail { path, name, seek, end, stream } => KPPlaylistItemView::Media(KPMediaPlanView {
            path, name, seek, end, expect_streams: expect_streams_spec(stream),
        }),
    }
}

/// What the resources of a playlist add, in order.
pub open spec fn items_spec(rs: Seq<ResourceTypeView>) -> Seq<KPPlaylistItemView> {
    rs.map_values(|r: ResourceTypeView| item_spec(r))
}

/// The playlist a configuration entry describes, before its media are
/// opened, or the error for an unknown play mode.
pub open spec fn playlist_plan_spec(pl: PlaylistView) -> Result<KPPlaylistPlanView, KPGErrorView> {
    match play_model_spec(pl.play_mode) {
        None => Err(config_error("invalid playlist play model. name: "@ + pl.name + ", play_model: "@ + pl.play_mode)),
        Some(mode) => Ok(KPPlaylistPlanView {
            name: pl.name,
            start_point: pl.start_point,
            mode,
            items: items_spec(pl.resource),
            media: seq![],
        }),
    }
}

/// The play mode a configuration names.
pub fn play_model(mode: &String) -> (res: Option<KPPlayModel>)
    ensures
        res == play_model_spec(mode@),
{
    proof { reveal_strlit("list"); reveal_strlit("loop"); reveal_strlit("random"); }
    if str_equal(mode.as_str(), "list") {
        Some(KPPlayModel::List)
    } else if str_equal(mode.as_str(), "loop") {
        Some(KPPlayModel::Loop)
    } else if str_equal(mode.as_str(), "random") {
        Some(KPPlayModel::Random)
    } else {
        None
    }
}

/// The stream indexes a resource asks for.
pub fn expect_streams(stream: &Option<Stream>) -> (res: Vec<(KPMediaKind, u32)>)
    ensures
        res@ == expect_streams_spec(*stream),
{
    let mut v: Vec<(KPMediaKind, u32)> = Vec::new();
    match stream {
        None => {},
        Some(s) => {
            if s.video >= 0 { v.push((KPMediaKind::Video, s.video as u32)); }
            if s.audio >= 0 { v.push((KPMediaKind::Audio, s.audio as u32)); }
            if s.subtitle >= 0 { v.push((KPMediaKind::Subtitle, s.subtitle as u32)); }
        },
    }
    assert(v@ =~= expect_streams_spec(*stream));
    v
}

fn clone_strings(v: &Vec<String>) -> (res: Vec<String>)
    ensures
        res@ == v@,
{
    let mut out: Vec<String> = Vec::new();
    let mut i: usize = 0;
    while i < v.len()
        invariant
            i <= v.len(),
            out@ == v@.take(i as int),
        decreases v.len() - i,
    {
        out.push(v[i].clone());
        proof { assert(out@ =~= v@.take(i + 1)); }
        i = i + 1;
    }
    proof { assert(v@.take(v@.len() as int) =~= v@); }
    out
}

/// What a resource adds to its playlist.
pub fn item_plan(r: &ResourceType) -> (res: KPPlaylistItem)
    ensures
        res@ == item_spec(r@),
{
    match r {
        ResourceType::ResourceSingle { path } => KPPlaylistItem::Media(KPMediaPlan {
            path: path.clone(), name: None, seek: None, end: None, expect_streams: Vec::new(),
        }),
        ResourceType::ResourceDirectory { directory, extension } => {
            let e = clone_strings(extension);
            KPPlaylistItem::Directory { directory: directory.clone(), extension: e }
        },
        ResourceType::ResourceDetail { path, name, seek, end, stream } => {
            let n = match name { Some(x) => Some(x.clone()), None => None };
            let es = expect_streams(stream);
            let res = KPPlaylistItem::Media(KPMediaPlan { path: path.clone(), name: n, seek: *seek, end: *end, expect_streams: es });
            assert(res@ =~= item_spec(r@));
            res
        },
    }
}

/// The playlist a configuration entry describes, as `playlist_plan_spec`
/// gives it.
pub fn playlist_plan(pl: &Playlist) -> (res: Result<KPPlaylistPlan, KPGError>)
    ensures
        match (res, playlist_plan_spec(pl@)) {
            (Ok(p), Ok(s)) => p@ == s,
            (Err(e), Err(s)) => e@ == s,
            _ => false,
        },
{
    let mode = match play_model(&pl.play_mode) {
        Some(m) => m,
        None => {
            let mut m = string_of("invalid playlist play model. name: ");
            append_str(&mut m, pl.name.as_str());
            append_str(&mut m, ", play_model: ");
            append_str(&mut m, pl.play_mode.as_str());
            proof {
                reveal_strlit("invalid playlist play model. name: ");
                reveal_strlit(", play_model: ");
            }
            assert(m@ =~= "invalid playlist play model. name: "@ + pl.name@ + ", play_model: "@ + pl.play_mode@);
            return Err(KPGError::new_with_string(KPGErrorCode::KPGFactoryParseConfigFailed, m));
        },
    };
    let mut items: Vec<KPPlaylistItem> = Vec::new();
    let mut i: usize = 0;
    let ghost rs = pl@.resource;
    while i < pl.resource.len()
        invariant
            i <= pl.resource.len(),
            rs == crate::config::resources_view(pl.resource@),
            items_view(items@) == items_spec(rs.take(i as int)),
        decreases pl.resource.len() - i,
    {
        let it = item_plan(&pl.resource[i]);
        let ghost before = items@;
        items.push(it);
        proof {
            assert(rs[i as int] == pl.resource@[i as int]@);
            assert(items_view(items@) =~= items_view(before).push(it@));
            assert(items_spec(rs.take(i + 1)) =~= items_spec(rs.take(i as int)).push(item_spec(rs[i as int])));
        }
        i = i + 1;
    }
    proof { assert(rs.take(rs.len() as int) =~= rs); }
    let res = KPPlaylistPlan { name: pl.name.clone(), start_point: pl.start_point, mode, items, media: Vec::new() };
    assert(res@ =~= playlist_plan_spec(pl@)->Ok_0);
    Ok(res)
}


// ----- the media of a playlist -----

/// What became of a media file that a playlist tried to take.
#[derive(Debug, Clone)]
pub enum KPMediaOutcome {
    /// The codec library could not open it: it is left out.
    OpenFailed,
    /// It was opened and added.
    Added,
    /// It was opened, but the playlist refused it, with the codec
    /// library's message.
    AddFailed(String),
}

/// What became of a resource of a playlist.
#[derive(Debug, Clone)]
pub enum KPResourceOutcome {
    /// A resource of one media file.
    Media(KPMediaOutcome),
    /// A directory that could be read: the files it gave whose extension is
    /// listed, in the order of the listing, each with what became of it.
    Listed(Vec<(String, KPMediaOutcome)>),
    /// A directory that could not be read, with the system's message.
    Unreadable(String),
}

#[verifier::ext_equal]
pub enum KPMediaOutcomeView {
    OpenFailed,
    Added,
    AddFailed(Seq<char>),
}

#[verifier::ext_equal]
pub enum KPResourceOutcomeView {
    Media(KPMediaOutcomeView),
    Listed(Seq<(Seq<char>, KPMediaOutcomeView)>),
    Unreadable(Seq<char>),
}

impl View for KPMediaOutcome {
    type V = KPMediaOutcomeView;

    open spec fn view(&self) -> KPMediaOutcomeView {
        match self {
            KPMediaOutcome::OpenFailed => KPMediaOutcomeView::OpenFailed,
            KPMediaOutcome::Added => KPMediaOutcomeView::Added,
            KPMediaOutcome::AddFailed(e) => KPMediaOutcomeView::AddFailed(e@),
        }
    }
}

/// The views of listed files and what became of them.
pub open spec fn listed_view(v: Seq<(String, KPMediaOutcome)>) -> Seq<(Seq<char>, KPMediaOutcomeView)> {
    v.map_values(|f: (String, KPMediaOutcome)| (f.0@, f.1@))
}

impl View for KPResourceOutcome {
    type V = KPResourceOutcomeView;

    open spec fn view(&self) -> KPResourceOutcomeView {
        match self {
            KPResourceOutcome::Media(o) => KPResourceOutcomeView::Media(o@),
            KPResourceOutcome::Listed(fs) => KPResourceOutcomeView::Listed(listed_view(fs@)),
            KPResourceOutcome::Unreadable(e) => KPResourceOutcomeView::Unreadable(e@),
        }
    }
}

/// The views of resource outcomes.
pub open spec fn outcomes_view(v: Seq<KPResourceOutcome>) -> Seq<KPResourceOutcomeView> {
    v.map_values(|o: KPResourceOutcome| o@)
}

/// The views of the resource outcomes of several playlists.
pub open spec fn outcome_table_view(v: Seq<Vec<KPResourceOutcome>>) -> Seq<Seq<KPResourceOutcomeView>> {
    v.map_values(|os: Vec<KPResourceOutcome>| outcomes_view(os@))
}

/// Whether an outcome is of the kind its item has: a media item has a
/// media outcome, a directory is listed or unreadable.
pub open spec fn outcome_fits(item: KPPlaylistItemView, o: KPResourceOutcomeView) -> bool {
    match item {
        KPPlaylistItemView::Media(_) => o is Media,
        KPPlaylistItemView::Directory { .. } => !(o is Media),
    }
}

/// Whether there is one outcome per item, of the item's kind.
pub open spec fn outcomes_fit(items: Seq<KPPlaylistItemView>, outs: Seq<KPResourceOutcomeView>) -> bool {
    &&& items.len() == outs.len()
    &&& forall|j: int| 0 <= j < items.len() ==> outcome_fits(#[trigger] items[j], outs[j])
}

/// Whether there is a row of outcomes per playlist entry, one outcome per
/// resource, of the kind of what the resource adds.
pub open spec fn playlists_fit(pls: Seq<PlaylistView>, outs: Seq<Seq<KPResourceOutcomeView>>) -> bool {
    &&& pls.len() == outs.len()
    &&& forall|i: int| 0 <= i < pls.len() ==> outcomes_fit(items_spec((#[trigger] pls[i]).resource), outs[i])
}

/// The media a file of a directory gives: the file alone.
pub open spec fn file_media_spec(path: Seq<char>) -> KPMediaPlanView {
    KPMediaPlanView { path, name: None, seek: None, end: None, expect_streams: seq![] }
}

/// What a media file adds to the playlist called `name`: itself where it
/// was added, nothing where it could not be opened, and where the playlist
/// refused it, the error that names the playlist, the file and the reason.
pub open spec fn media_outcome_spec(name: Seq<char>, m: KPMediaPlanView, o: KPMediaOutcomeView)
    -> Result<Seq<KPMediaPlanView>, KPGErrorView>
{
    match o {
        KPMediaOutcomeView::OpenFailed => Ok(seq![]),
        KPMediaOutcomeView::Added => Ok(seq![m]),
        KPMediaOutcomeView::AddFailed(err) => Err(config_error("add media to playlist failed. playlist: "@ + name
            + ", media: "@ + m.path + ", error: "@ + err)),
    }
}

/// What the listed files of a directory add, in order, or the first error.
pub open spec fn directory_media_spec(name: Seq<char>, files: Seq<(Seq<char>, KPMediaOutcomeView)>)
    -> Result<Seq<KPMediaPlanView>, KPGErrorView>
    decreases files.len(),
{
    if files.len() == 0 {
        Ok(seq![])
    } else {
        match directory_media_spec(name, files.drop_last()) {
            Err(e) => Err(e),
            Ok(ms) => match media_outcome_spec(name, file_media_spec(files.last().0), files.last().1) {
                Err(e) => Err(e),
                Ok(more) => Ok(ms + more),
            },
        }
    }
}

/// The error of a directory that could not be read, its path printed
/// with `{:?}`.
pub open spec fn read_directory_error_spec(directory: Seq<char>, err: Seq<char>) -> KPGErrorView {
    KPGErrorView {
        code: KPGErrorCode::KPGUtilReadDirectoryFailed,
        error: "read directory failed. path: "@ + str_debug(directory) + ", error: "@ + err,
    }
}

/// What a resource adds to the playlist called `name`, given what became
/// of it; an unreadable directory is an error.
pub open spec fn resource_media_spec(name: Seq<char>, item: KPPlaylistItemView, o: KPResourceOutcomeView)
    -> Result<Seq<KPMediaPlanView>, KPGErrorView>
{
    match item {
        KPPlaylistItemView::Media(m) => match o {
            KPResourceOutcomeView::Media(mo) => media_outcome_spec(name, m, mo),
            _ => Ok(seq![]),
        },
        KPPlaylistItemView::Directory { directory, extension } => match o {
            KPResourceOutcomeView::Listed(files) => directory_media_spec(name, files),
            KPResourceOutcomeView::Unreadable(err) => Err(read_directory_error_spec(directory, err)),
            _ => Ok(seq![]),
        },
    }
}

/// The media of the playlist called `name`: what its resources add, in
/// order, or the first error.
pub open spec fn playlist_media_spec(name: Seq<char>, items: Seq<KPPlaylistItemView>, outs: Seq<KPResourceOutcomeView>)
    -> Result<Seq<KPMediaPlanView>, KPGErrorView>
    decreases items.len(),
{
    if items.len() == 0 {
        Ok(seq![])
    } else {
        match playlist_media_spec(name, items.drop_last(), outs) {
            Err(e) => Err(e),
            Ok(ms) => match resource_media_spec(name, items.last(), outs[items.len() - 1]) {
                Err(e) => Err(e),
                Ok(more) => Ok(ms + more),
            },
        }
    }
}

/// The playlist an entry describes with its media, given what became of
/// its resources, or the first error: that of its play mode, then those
/// of its resources in order.
pub open spec fn loaded_playlist_spec(pl: PlaylistView, outs: Seq<KPResourceOutcomeView>)
    -> Result<KPPlaylistPlanView, KPGErrorView>
{
    match playlist_plan_spec(pl) {
        Err(e) => Err(e),
        Ok(p) => match playlist_media_spec(p.name, p.items, outs) {
            Err(e) => Err(e),
            Ok(ms) => Ok(KPPlaylistPlanView { media: ms, ..p }),
        },
    }
}

/// The playlists of all entries with their media, in order, or the first
/// error; `outs[i]` is what became of the resources of entry `i`.
pub open spec fn create_playlist_spec(pls: Seq<PlaylistView>, outs: Seq<Seq<KPResourceOutcomeView>>)
    -> Result<Seq<KPPlaylistPlanView>, KPGErrorView>
    decreases pls.len(),
{
    if pls.len() == 0 {
        Ok(seq![])
    } else {
        match create_playlist_spec(pls.drop_last(), outs) {
            Err(e) => Err(e),
            Ok(ps) => match loaded_playlist_spec(pls.last(), outs[pls.len() - 1]) {
                Err(e) => Err(e),
                Ok(p) => Ok(ps.push(p)),
            },
        }
    }
}

fn clone_streams(v: &Vec<(KPMediaKind, u32)>) -> (res: Vec<(KPMediaKind, u32)>)
    ensures
        res@ == v@,
{
    let mut out: Vec<(KPMediaKind, u32)> = Vec::new();
    let mut i: usize = 0;
    while i < v.len()
        invariant
            i <= v.len(),
            out@ == v@.take(i as int),
        decreases v.len() - i,
    {
        out.push(v[i]);
        proof { assert(out@ =~= v@.take(i + 1)); }
        i = i + 1;
    }
    proof { assert(v@.take(v@.len() as int) =~= v@); }
    out
}

fn clone_media(m: &KPMediaPlan) -> (res: KPMediaPlan)
    ensures
        res@ == m@,
{
    let name = match &m.name { Some(n) => Some(n.clone()), None => None };
    let res = KPMediaPlan { path: m.path.clone(), name, seek: m.seek, end: m.end, expect_streams: clone_streams(&m.expect_streams) };
    assert(res@ =~= m@);
    res
}

/// Adds what a media file gives to the playlist called `name` to `out`,
/// or gives the error, as `media_outcome_spec` says.
fn take_media(name: &String, m: KPMediaPlan, o: &KPMediaOutcome, out: &mut Vec<KPMediaPlan>) -> (res: Result<(), KPGError>)
    ensures
        match media_outcome_spec(name@, m@, o@) {
            Ok(more) => res is Ok && media_view(final(out)@) == media_view(old(out)@) + more,
            Err(e) => res matches Err(x) && x@ == e,
        },
{
    match o {
        KPMediaOutcome::OpenFailed => {
            assert(media_view(out@) =~= media_view(out@) + seq![]);
            Ok(())
        },
        KPMediaOutcome::Added => {
            let ghost before = out@;
            let ghost mv = m@;
            out.push(m);
            assert(media_view(out@) =~= media_view(before) + seq![mv]);
            Ok(())
        },
        KPMediaOutcome::AddFailed(err) => Err(add_media_error(name, &m.path, err)),
    }
}

/// Once some files give an error, so do all lists that start with them.
proof fn lemma_directory_media_err_sticky(name: Seq<char>, files: Seq<(Seq<char>, KPMediaOutcomeView)>, k: int)
    requires
        0 <= k <= files.len(),
        directory_media_spec(name, files.take(k)) is Err,
    ensures
        directory_media_spec(name, files) == directory_media_spec(name, files.take(k)),
    decreases files.len() - k,
{
    if k < files.len() {
        assert(files.take(k + 1).drop_last() =~= files.take(k));
        lemma_directory_media_err_sticky(name, files, k + 1);
    } else {
        assert(files.take(k) =~= files);
    }
}

/// What the listed files of a directory add to the playlist called
/// `name`, in order, or the first error.
fn directory_media(name: &String, files: &Vec<(String, KPMediaOutcome)>, out: &mut Vec<KPMediaPlan>) -> (res: Result<(), KPGError>)
    ensures
        match directory_media_spec(name@, listed_view(files@)) {
            Ok(more) => res is Ok && media_view(final(out)@) == media_view(old(out)@) + more,
            Err(e) => res matches Err(x) && x@ == e,
        },
{
    let ghost all = listed_view(files@);
    let ghost start = media_view(out@);
    let mut i: usize = 0;
    proof { assert(all.take(0) =~= Seq::<(Seq<char>, KPMediaOutcomeView)>::empty()); }
    while i < files.len()
        invariant
            i <= files.len(),
            all == listed_view(files@),
            directory_media_spec(name@, all.take(i as int)) matches Ok(ms) && media_view(out@) == start + ms,
        decreases files.len() - i,
    {
        proof {
            assert(all.take(i + 1).drop_last() =~= all.take(i as int));
            assert(all.take(i + 1).last() == (files@[i as int].0@, files@[i as int].1@));
        }
        let ghost ms = directory_media_spec(name@, all.take(i as int))->Ok_0;
        let m = KPMediaPlan { path: files[i].0.clone(), name: None, seek: None, end: None, expect_streams: Vec::new() };
        proof { assert(m@ =~= file_media_spec(files@[i as int].0@)); }
        match take_media(name, m, &files[i].1, out) {
            Err(e) => {
                proof { lemma_directory_media_err_sticky(name@, all, i + 1); }
                return Err(e);
            },
            Ok(_) => {
                proof {
                    let more = media_outcome_spec(name@, m@, files@[i as int].1@)->Ok_0;
                    assert(start + ms + more =~= start + (ms + more));
                }
            },
        }
        i = i + 1;
    }
    proof { assert(all.take(all.len() as int) =~= all); }
    Ok(())
}

/// What a resource adds to the playlist called `name`, given what became
/// of it, or the error, as `resource_media_spec` says.
fn resource_media(name: &String, item: &KPPlaylistItem, o: &KPResourceOutcome, out: &mut Vec<KPMediaPlan>) -> (res: Result<(), KPGError>)
    requires
        outcome_fits(item@, o@),
    ensures
        match resource_media_spec(name@, item@, o@) {
            Ok(more) => res is Ok && media_view(final(out)@) == media_view(old(out)@) + more,
            Err(e) => res matches Err(x) && x@ == e,
        },
{
    match (item, o) {
        (KPPlaylistItem::Media(m), KPResourceOutcome::Media(mo)) => take_media(name, clone_media(m), mo, out),
        (KPPlaylistItem::Directory { directory, extension }, KPResourceOutcome::Listed(files)) =>
            directory_media(name, files, out),
        (KPPlaylistItem::Directory { directory, extension }, KPResourceOutcome::Unreadable(err)) => {
            let shown = debug_str(directory.as_str());
            let e = read_directory_error(&shown, err);
            proof { reveal_strlit("read directory failed. path: "); reveal_strlit(", error: "); }
            Err(e)
        },
        _ => {
            proof { assert(false); }
            Ok(())
        },
    }
}

/// Once some resources give an error, so do all lists that start with
/// them.
proof fn lemma_playlist_media_err_sticky(name: Seq<char>, items: Seq<KPPlaylistItemView>, outs: Seq<KPResourceOutcomeView>, k: int)
    requires
        0 <= k <= items.len(),
        playlist_media_spec(name, items.take(k), outs) is Err,
    ensures
        playlist_media_spec(name, items, outs) == playlist_media_spec(name, items.take(k), outs),
    decreases items.len() - k,
{
    if k < items.len() {
        assert(items.take(k + 1).drop_last() =~= items.take(k));
        lemma_playlist_media_err_sticky(name, items, outs, k + 1);
    } else {
        assert(items.take(k) =~= items);
    }
}

/// The media of the playlist called `name`, from its items and what became
/// of each (`outs[j]` for `items[j]`): the media resources that were
/// added, and the added files of each readable directory in the order of
/// its listing; media that could not be opened are left out. The first
/// refused media, or the first unreadable directory, gives its error.
pub fn playlist_media(name: &String, items: &Vec<KPPlaylistItem>, outs: &Vec<KPResourceOutcome>) -> (res: Result<Vec<KPMediaPlan>, KPGError>)
    requires
        outcomes_fit(items_view(items@), outcomes_view(outs@)),
    ensures
        match (res, playlist_media_spec(name@, items_view(items@), outcomes_view(outs@))) {
            (Ok(v), Ok(s)) => media_view(v@) == s,
            (Err(e), Err(s)) => e@ == s,
            _ => false,
        },
{
    let ghost its = items_view(items@);
    let ghost os = outcomes_view(outs@);
    let mut out: Vec<KPMediaPlan> = Vec::new();
    let mut i: usize = 0;
    proof {
        assert(its.take(0) =~= Seq::<KPPlaylistItemView>::empty());
        assert(media_view(out@) =~= seq![]);
    }
    while i < items.len()
        invariant
            i <= items.len(),
            its == items_view(items@),
            os == outcomes_view(outs@),
            outcomes_fit(its, os),
            playlist_media_spec(name@, its.take(i as int), os) matches Ok(ms) && media_view(out@) == ms,
        decreases items.len() - i,
    {
        proof {
            assert(its.take(i + 1).drop_last() =~= its.take(i as int));
            assert(its.take(i + 1).last() == items@[i as int]@);
            assert(os[i as int] == outs@[i as int]@);
            assert(outcome_fits(its[i as int], os[i as int]));
        }
        let ghost ms = media_view(out@);
        match resource_media(name, &items[i], &outs[i], &mut out) {
            Err(e) => {
                proof { lemma_playlist_media_err_sticky(name@, its, os, i + 1); }
                return Err(e);
            },
            Ok(_) => {},
        }
        i = i + 1;
    }
    proof { assert(its.take(its.len() as int) =~= its); }
    Ok(out)
}

/// The playlist an entry describes with its media, as
/// `loaded_playlist_spec` gives it.
pub fn loaded_playlist(pl: &Playlist, outs: &Vec<KPResourceOutcome>) -> (res: Result<KPPlaylistPlan, KPGError>)
    requires
        outcomes_fit(items_spec(pl@.resource), outcomes_view(outs@)),
    ensures
        match (res, loaded_playlist_spec(pl@, outcomes_view(outs@))) {
            (Ok(p), Ok(s)) => p@ == s,
            (Err(e), Err(s)) => e@ == s,
            _ => false,
        },
{
    match playlist_plan(pl) {
        Err(e) => Err(e),
        Ok(mut p) => {
            match playlist_media(&p.name, &p.items, outs) {
                Err(e) => Err(e),
                Ok(ms) => {
                    p.media = ms;
                    let ghost s = loaded_playlist_spec(pl@, outcomes_view(outs@));
                    assert(p@ =~= s->Ok_0);
                    Ok(p)
                },
            }
        },
    }
}

/// The playlists of all entries with their media, in order, or the first
/// error; `outs[i]` is what became of the resources of entry `i`.
pub fn create_playlist_plans(pls: &Vec<Playlist>, outs: &Vec<Vec<KPResourceOutcome>>) -> (res: Result<Vec<KPPlaylistPlan>, KPGError>)
    requires
        playlists_fit(playlists_view(pls@), outcome_table_view(outs@)),
    ensures
        match (res, create_playlist_spec(playlists_view(pls@), outcome_table_view(outs@))) {
            (Ok(v), Ok(s)) => plans_view(v@) == s,
            (Err(e), Err(s)) => e@ == s,
            _ => false,
        },
{
    let ghost all = playlists_view(pls@);
    let ghost ot = outcome_table_view(outs@);
    let mut out: Vec<KPPlaylistPlan> = Vec::new();
    let mut i: usize = 0;
    proof {
        assert(all.take(0) =~= Seq::<PlaylistView>::empty());
        assert(plans_view(out@) =~= seq![]);
    }
    while i < pls.len()
        invariant
            i <= pls.len(),
            all == playlists_view(pls@),
            ot == outcome_table_view(outs@),
            playlists_fit(all, ot),
            create_playlist_spec(all.take(i as int), ot) matches Ok(ps) && plans_view(out@) == ps,
        decreases pls.len() - i,
    {
        proof {
            assert(all.take(i + 1).drop_last() =~= all.take(i as int));
            assert(all.take(i + 1).last() == pls@[i as int]@);
            assert(ot[i as int] == outcomes_view(outs@[i as int]@));
            assert(outcomes_fit(items_spec(all[i as int].resource), ot[i as int]));
        }
        match loaded_playlist(&pls[i], &outs[i]) {
            Err(e) => {
                proof { lemma_create_playlist_err_sticky(all, ot, i + 1); }
                return Err(e);
            },
            Ok(p) => {
                let ghost before = out@;
                out.push(p);
                proof { assert(plans_view(out@) =~= plans_view(before).push(p@)); }
            },
        }
        i = i + 1;
    }
    proof { assert(all.take(all.len() as int) =~= all); }
    Ok(out)
}

/// Once some entries are refused, so are all entries that start with them.
proof fn lemma_create_playlist_err_sticky(pls: Seq<PlaylistView>, outs: Seq<Seq<KPResourceOutcomeView>>, k: int)
    requires
        0 <= k <= pls.len(),
        create_playlist_spec(pls.take(k), outs) is Err,
    ensures
        create_playlist_spec(pls, outs) == create_playlist_spec(pls.take(k), outs),
    decreases pls.len() - k,
{
    if k < pls.len() {
        assert(pls.take(k + 1).drop_last() =~= pls.take(k));
        lemma_create_playlist_err_sticky(pls, outs, k + 1);
    } else {
        assert(pls.take(k) =~= pls);
    }
}

/// Whether what became of a resource refuses it: a media file that the
/// playlist refused, or an unreadable directory.
pub open spec fn resource_refused(o: KPResourceOutcomeView) -> bool {
    match o {
        KPResourceOutcomeView::Media(m) => m is AddFailed,
        KPResourceOutcomeView::Listed(files) => exists|k: int| 0 <= k < files.len() && (#[trigger] files[k]).1 is AddFailed,
        KPResourceOutcomeView::Unreadable(_) => true,
    }
}

proof fn lemma_directory_unrefused(name: Seq<char>, files: Seq<(Seq<char>, KPMediaOutcomeView)>)
    requires
        forall|k: int| 0 <= k < files.len() ==> !((#[trigger] files[k]).1 is AddFailed),
    ensures
        directory_media_spec(name, files) is Ok,
    decreases files.len(),
{
    if files.len() > 0 {
        let front = files.drop_last();
        assert forall|k: int| 0 <= k < front.len() implies !((#[trigger] front[k]).1 is AddFailed) by {
            assert(front[k] == files[k]);
        }
        lemma_directory_unrefused(name, front);
        assert(!(files[files.len() - 1].1 is AddFailed));
    }
}

/// Media that cannot be opened are left out of a playlist, not refused:
/// where no resource is refused (no media that the playlist would not
/// take, no unreadable directory), the playlist's media are had.
pub proof fn lemma_unopened_media_skipped(name: Seq<char>, items: Seq<KPPlaylistItemView>, outs: Seq<KPResourceOutcomeView>)
    requires
        outcomes_fit(items, outs),
        forall|j: int| 0 <= j < outs.len() ==> !resource_refused(#[trigger] outs[j]),
    ensures
        playlist_media_spec(name, items, outs) is Ok,
{
    lemma_unopened_media_skipped_prefix(name, items, outs, items.len() as int);
    assert(items.take(items.len() as int) =~= items);
}

proof fn lemma_unopened_media_skipped_prefix(name: Seq<char>, items: Seq<KPPlaylistItemView>, outs: Seq<KPResourceOutcomeView>, k: int)
    requires
        0 <= k <= items.len(),
        outcomes_fit(items, outs),
        forall|j: int| 0 <= j < outs.len() ==> !resource_refused(#[trigger] outs[j]),
    ensures
        playlist_media_spec(name, items.take(k), outs) is Ok,
    decreases k,
{
    if k > 0 {
        assert(items.take(k).drop_last() =~= items.take(k - 1));
        lemma_unopened_media_skipped_prefix(name, items, outs, k - 1);
        assert(items.take(k).last() == items[k - 1]);
        assert(outcome_fits(items[k - 1], outs[k - 1]));
        assert(!resource_refused(outs[k - 1]));
        match outs[k - 1] {
            KPResourceOutcomeView::Listed(files) => {
                lemma_directory_unrefused(name, files);
            },
            _ => {},
        }
    }
}

/// The error of a media file that could not be added to its playlist.
pub fn add_media_error(playlist: &String, media: &String, err: &String) -> (res: KPGError)
    ensures
        res@ == config_error("add media to playlist failed. playlist: "@ + playlist@ + ", media: "@ + media@
            + ", error: "@ + err@),
{
    let mut m = string_of("add media to playlist failed. playlist: ");
    append_str(&mut m, playlist.as_str());
    append_str(&mut m, ", media: ");
    append_str(&mut m, media.as_str());
    append_str(&mut m, ", error: ");
    append_str(&mut m, err.as_str());
    KPGError::new_with_string(KPGErrorCode::KPGFactoryParseConfigFailed, m)
}

/// A playlist is accepted exactly when its play mode is `list`, `loop` or
/// `random`; then it keeps its name and start point and adds one item per
/// resource, in order.
pub proof fn lemma_playlist_accepted(pl: PlaylistView)
    ensures
        playlist_plan_spec(pl) is Ok <==> (pl.play_mode == "list"@ || pl.play_mode == "loop"@ || pl.play_mode == "random"@),
        playlist_plan_spec(pl) matches Ok(p) ==> p.name == pl.name && p.start_point == pl.start_point
            && p.items.len() == pl.resource.len(),
{
}


/// Each resource of an accepted playlist becomes the item in the same
/// place: a single file a media plan of that path with no name, start, end
/// or stream choice; a detailed resource a media plan with the resource's
/// path, name, start (`seek`) and end; a directory the same directory and
/// extensions.
pub proof fn lemma_playlist_items_keep_resources(pl: PlaylistView, j: int)
    requires
        playlist_plan_spec(pl) is Ok,
        0 <= j < pl.resource.len(),
    ensures
        playlist_plan_spec(pl)->Ok_0.items.len() == pl.resource.len(),
        ({
            let it = playlist_plan_spec(pl)->Ok_0.items[j];
            match pl.resource[j] {
                ResourceTypeView::ResourceSingle { path } => it matches KPPlaylistItemView::Media(m)
                    && m.path == path && m.name is None && m.seek is None && m.end is None
                    && m.expect_streams.len() == 0,
                ResourceTypeView::ResourceDirectory { directory, extension } =>
                    it matches KPPlaylistItemView::Directory { directory: d, extension: e }
                    && d == directory && e == extension,
                ResourceTypeView::ResourceDetail { path, name, seek, end, stream } =>
                    it matches KPPlaylistItemView::Media(m)
                    && m.path == path && m.name == name && m.seek == seek && m.end == end,
            }
        }),
{
}

} // verus!

//! The site's settings, and the resolution of the asset versions that it
//! starts with.
//!
//! The static tree holds `latest.txt`, the version of the compiled frontend
//! assets that is live, and for each version `deps/<version>/deps.json`, which
//! names the files of each bundle. [`Config::init_elm`] resolves the two one
//! step at a time: it is told what the last read gave and says what to read
//! next. It never reads anything itself.

use crate::json::{error_text, says};
use crate::outside::{join_path, joined_path, manifest_bundles, parse_manifest};
use crate::strmap::{put_all, StringMap};
use crate::text::{trim, trimmed};
use serde_json::Error as JsonError;
use vstd::prelude::*;

verus! {

/// Why the asset versions could not be resolved.
#[derive(Debug)]
pub enum DependencyError {
    /// A file of the static tree is not there. `path` is its place below the
    /// static root.
    NotFound { path: String },
    /// The manifest is not a JSON object of lists of strings.
    ParseError { error: JsonError },
    /// A file or the version's directory could not be read.
    IoError { message: String },
}

/// A `DependencyError` by what it says.
pub enum DependencyErrorView {
    NotFound { path: Seq<char> },
    ParseError,
    IoError { message: Seq<char> },
}

impl View for DependencyError {
    type V = DependencyErrorView;

    open spec fn view(&self) -> DependencyErrorView {
        match self {
            DependencyError::NotFound { path } => DependencyErrorView::NotFound { path: path@ },
            DependencyError::ParseError { .. } => DependencyErrorView::ParseError,
            DependencyError::IoError { message } => DependencyErrorView::IoError {
                message: message@,
            },
        }
    }
}

impl DependencyError {
    /// The text of the error: `File not found: ` and the path for a file
    /// that is not there, the reason for a read that failed, and what the
    /// parser says of a manifest that it refused.
    pub fn to_string(&self) -> (text: String)
        ensures
            match *self {
                DependencyError::NotFound { path } => text@ == "File not found: "@ + path@,
                DependencyError::ParseError { error } => says(error, text@),
                DependencyError::IoError { message } => text@ == message@,
            },
    {
        match self {
            DependencyError::NotFound { path } => {
                let mut text = "File not found: ".to_owned();
                text.append(path.as_str());
                text
            },
            DependencyError::ParseError { error } => error_text(error),
            DependencyError::IoError { message } => message.clone(),
        }
    }
}

/// What came of the step that `init_elm` asked for.
#[derive(Debug)]
pub enum Reply {
    /// The file was read: its content.
    Text(String),
    /// The file could not be opened.
    Missing,
    /// The file was opened but not read, or the directory not walked to its
    /// end: the reason.
    Failed(String),
    /// The directory was walked to its end.
    Listed,
}

/// A `Reply` by what it says.
pub enum ReplyView {
    Text(Seq<char>),
    Missing,
    Failed(Seq<char>),
    Listed,
}

impl View for Reply {
    type V = ReplyView;

    open spec fn view(&self) -> ReplyView {
        match self {
            Reply::Text(text) => ReplyView::Text(text@),
            Reply::Missing => ReplyView::Missing,
            Reply::Failed(reason) => ReplyView::Failed(reason@),
            Reply::Listed => ReplyView::Listed,
        }
    }
}

/// The file's content without the white space around it, or why there is
/// none: what reading the file at `path` below the static root comes to.
pub open spec fn content_of(path: Seq<char>, reply: ReplyView) -> Result<
    Seq<char>,
    DependencyErrorView,
> {
    match reply {
        ReplyView::Text(text) => Ok(trimmed(text)),
        ReplyView::Missing => Err(DependencyErrorView::NotFound { path }),
        ReplyView::Failed(reason) => Err(DependencyErrorView::IoError { message: reason }),
        _ => Err(DependencyErrorView::IoError { message: "unexpected reply"@ }),
    }
}

/// Where the resolution of the asset versions stands.
#[derive(Clone, Copy, Debug, PartialEq, Eq, Structural)]
pub enum Stage {
    /// It has not started, or it has failed.
    Idle,
    /// `latest.txt` was asked for.
    Latest,
    /// The manifest of the latest version was asked for.
    Deps,
    /// The listing of the latest version's directory was asked for.
    Listing,
    /// The versions are resolved.
    Ready,
}

/// What `init_elm` wants done next, or how the resolution ended.
#[derive(Debug)]
pub enum Step {
    /// Read the file at `path` and reply with what came of it.
    Read { path: String },
    /// Walk the directory at `path` to its end and reply with what came of
    /// it.
    List { path: String },
    /// The versions are resolved.
    Done,
    /// The versions are not resolved.
    Failed { error: DependencyError },
}

/// A `Step` by what it says.
pub enum StepView {
    Read { path: Seq<char> },
    List { path: Seq<char> },
    Done,
    Failed { error: DependencyErrorView },
}

impl View for Step {
    type V = StepView;

    open spec fn view(&self) -> StepView {
        match self {
            Step::Read { path } => StepView::Read { path: path@ },
            Step::List { path } => StepView::List { path: path@ },
            Step::Done => StepView::Done,
            Step::Failed { error } => StepView::Failed { error: error@ },
        }
    }
}

/// The site's settings. `latest_elm` and `deps` are the asset manifest: the
/// version that is live and the files of each of its bundles. They are
/// resolved by `init_elm` and only read afterwards.
#[derive(Debug)]
pub struct Config {
    pub context: String,
    pub site_icon: String,
    pub css: Vec<String>,
    pub head_extra: String,
    pub body_extra: String,
    pub site_title_prefix: String,
    pub site_title_postfix: String,
    /// The root of the static tree.
    pub static_dir: String,
    /// The version of the assets that is live.
    pub latest_elm: String,
    /// The files of each bundle of that version.
    pub deps: StringMap<Vec<String>>,
    pub js_code: StringMap<String>,
    /// Where the resolution of `latest_elm` and `deps` stands.
    pub stage: Stage,
}

/// The part of a `Config` that the resolution reads and writes.
pub struct Assets {
    pub static_dir: Seq<char>,
    pub stage: Stage,
    pub latest: Seq<char>,
    pub bundles: Seq<(Seq<char>, Seq<Seq<char>>)>,
}

/// Where below the static root the manifest of `version` lies.
pub open spec fn manifest_name(version: Seq<char>) -> Seq<char> {
    "deps/"@ + version + "/deps.json"@
}

/// Where below the static root the directory of `version` lies.
pub open spec fn directory_name(version: Seq<char>) -> Seq<char> {
    "deps/"@ + version + "/"@
}

/// The resolution has failed with `error`: it is back where it started.
pub open spec fn failed(a: Assets, error: DependencyErrorView) -> (Assets, StepView) {
    (Assets { stage: Stage::Idle, ..a }, StepView::Failed { error })
}

/// What becomes of the assets `a` when the manifest of the latest version
/// was parsed: its bundles become the dependencies, put one after the other,
/// and the version's directory is asked to be walked; a manifest that did not
/// parse ends the resolution.
pub open spec fn with_manifest(
    a: Assets,
    parsed: Option<Seq<(Seq<char>, Seq<Seq<char>>)>>,
) -> (Assets, StepView) {
    match parsed {
        Some(bundles) => (
            Assets { stage: Stage::Listing, bundles: put_all(bundles), ..a },
            StepView::List { path: joined_path(a.static_dir, directory_name(a.latest)) },
        ),
        None => failed(a, DependencyErrorView::ParseError),
    }
}

/// The reply as `step` takes it.
pub open spec fn reply_view(reply: Option<Reply>) -> Option<ReplyView> {
    match reply {
        Some(reply) => Some(reply@),
        None => None,
    }
}

/// One step of the resolution: what becomes of the assets `a` on `reply`, and
/// what is to be done next.
///
/// No reply begins it, wherever it stood, by asking for `latest.txt`. Its
/// trimmed content is the latest version, whose manifest is asked for next.
/// The manifest's bundles become the dependencies, and the version's
/// directory is asked to be walked. When that is done the versions are
/// resolved. A file that is missing, a manifest that does not parse, a read or
/// a walk that fails, and a reply that does not fit what was asked, end the
/// resolution with the error that says so. A reply where nothing was asked is
/// an error too, and leaves the assets as they are.
pub open spec fn step(a: Assets, reply: Option<ReplyView>) -> (Assets, StepView) {
    match reply {
        None => (
            Assets { stage: Stage::Latest, ..a },
            StepView::Read { path: joined_path(a.static_dir, "latest.txt"@) },
        ),
        Some(reply) => match a.stage {
            Stage::Latest => match content_of("latest.txt"@, reply) {
                Ok(version) => (
                    Assets { stage: Stage::Deps, latest: version, ..a },
                    StepView::Read { path: joined_path(a.static_dir, manifest_name(version)) },
                ),
                Err(error) => failed(a, error),
            },
            Stage::Deps => match content_of(manifest_name(a.latest), reply) {
                Ok(text) => with_manifest(a, manifest_bundles(text)),
                Err(error) => failed(a, error),
            },
            Stage::Listing => match reply {
                ReplyView::Listed => (Assets { stage: Stage::Ready, ..a }, StepView::Done),
                ReplyView::Failed(reason) => failed(
                    a,
                    DependencyErrorView::IoError { message: reason },
                ),
                _ => failed(a, DependencyErrorView::IoError { message: "unexpected reply"@ }),
            },
            _ => (a, StepView::Failed {
                error: DependencyErrorView::IoError { message: "unexpected reply"@ },
            }),
        },
    }
}

impl Default for Config {
    /// The settings with every text and list empty and nothing resolved.
    fn default() -> (c: Config)
        ensures
            c.context@.len() == 0,
            c.site_icon@.len() == 0,
            c.css@.len() == 0,
            c.head_extra@.len() == 0,
            c.body_extra@.len() == 0,
            c.site_title_prefix@.len() == 0,
            c.site_title_postfix@.len() == 0,
            c.static_dir@.len() == 0,
            c.latest_elm@.len() == 0,
            c.deps.pairs().len() == 0,
            c.js_code.pairs().len() == 0,
            c.stage == Stage::Idle,
    {
        Config {
            context: String::new(),
            site_icon: String::new(),
            css: Vec::new(),
            head_extra: String::new(),
            body_extra: String::new(),
            site_title_prefix: String::new(),
            site_title_postfix: String::new(),
            static_dir: String::new(),
            latest_elm: String::new(),
            deps: StringMap::new(),
            js_code: StringMap::new(),
            stage: Stage::Idle,
        }
    }
}

impl Config {
    /// The part of the settings that the resolution reads and writes.
    pub open spec fn assets(&self) -> Assets {
        Assets {
            static_dir: self.static_dir@,
            stage: self.stage,
            latest: self.latest_elm@,
            bundles: self.deps.pairs(),
        }
    }

    /// Whether `other` has the same settings but for the assets.
    pub open spec fn same_settings(&self, other: &Config) -> bool {
        &&& self.context == other.context
        &&& self.site_icon == other.site_icon
        &&& self.css == other.css
        &&& self.head_extra == other.head_extra
        &&& self.body_extra == other.body_extra
        &&& self.site_title_prefix == other.site_title_prefix
        &&& self.site_title_postfix == other.site_title_postfix
        &&& self.js_code == other.js_code
    }

    /// Puts `static` for a static root that is not set, and
    /// `/static/favicon.ico` for a site icon that is not set. Nothing else
    /// changes.
    pub fn fill_defaults(&mut self)
        ensures
            final(self).static_dir@ == (if old(self).static_dir@.len() == 0 {
                "static"@
            } else {
                old(self).static_dir@
            }),
            final(self).site_icon@ == (if old(self).site_icon@.len() == 0 {
                "/static/favicon.ico"@
            } else {
                old(self).site_icon@
            }),
            final(self).context == old(self).context,
            final(self).css == old(self).css,
            final(self).head_extra == old(self).head_extra,
            final(self).body_extra == old(self).body_extra,
            final(self).site_title_prefix == old(self).site_title_prefix,
            final(self).site_title_postfix == old(self).site_title_postfix,
            final(self).latest_elm == old(self).latest_elm,
            final(self).deps == old(self).deps,
            final(self).js_code == old(self).js_code,
            final(self).stage == old(self).stage,
    {
        if self.static_dir.as_str().is_empty() {
            self.static_dir = "static".to_owned();
        }
        if self.site_icon.as_str().is_empty() {
            self.site_icon = "/static/favicon.ico".to_owned();
        }
    }

    /// The content of the file at `path` below the static root, without the
    /// white space around it, as `reply` gives it. A file that could not be
    /// opened is `NotFound`; one that could not be read, and a reply that
    /// does not answer a read, is an `IoError`.
    pub fn content(path: &str, reply: Reply) -> (r: Result<String, DependencyError>)
        ensures
            match r {
                Ok(text) => content_of(path@, reply@) == Ok::<Seq<char>, DependencyErrorView>(text@),
                Err(error) => content_of(path@, reply@) == Err::<Seq<char>, DependencyErrorView>(
                    error@,
                ),
            },
    {
        match reply {
            Reply::Text(text) => Ok(trim(text.as_str())),
            Reply::Missing => Err(DependencyError::NotFound { path: path.to_owned() }),
            Reply::Failed(reason) => Err(DependencyError::IoError { message: reason }),
            _ => Err(DependencyError::IoError { message: "unexpected reply".to_owned() }),
        }
    }

    /// The path of `rest` below the static root.
    pub fn static_path(&self, rest: &str) -> (path: String)
        ensures
            path@ == joined_path(self.static_dir@, rest@),
    {
        join_path(self.static_dir.as_str(), rest)
    }

    /// Takes what the parser made of the manifest of the latest version.
    /// Its bundles become the dependencies, and the version's directory is
    /// asked to be walked; where the parser refused the manifest, the
    /// resolution ends with its error.
    pub fn take_manifest(&mut self, parsed: Result<Vec<(String, Vec<String>)>, JsonError>) -> (next:
        Step)
        ensures
            (final(self).assets(), next@) == with_manifest(
                old(self).assets(),
                match parsed {
                    Ok(bundles) => Some(bundles.deep_view()),
                    Err(_) => None,
                },
            ),
            parsed matches Err(refusal) ==> next == (Step::Failed {
                error: DependencyError::ParseError { error: refusal },
            }),
            final(self).same_settings(old(self)),
    {
        match parsed {
            Ok(bundles) => {
                let name = directory_path(self.latest_elm.as_str());
                self.deps = StringMap::from_pairs(bundles);
                self.stage = Stage::Listing;
                Step::List { path: self.static_path(name.as_str()) }
            },
            Err(error) => {
                self.stage = Stage::Idle;
                Step::Failed { error: DependencyError::ParseError { error } }
            },
        }
    }

    /// One step of resolving the asset versions. `reply` says what came of
    /// the step that the last call asked for, `None` that none was asked yet.
    /// The result says what to do next, or how the resolution ended. See
    /// `step` for the rule.
    pub fn init_elm(&mut self, reply: Option<Reply>) -> (next: Step)
        ensures
            (final(self).assets(), next@) == step(old(self).assets(), reply_view(reply)),
            final(self).same_settings(old(self)),
    {
        let reply = match reply {
            Some(reply) => reply,
            None => {
                self.stage = Stage::Latest;
                return Step::Read { path: self.static_path("latest.txt") };
            },
        };
        match self.stage {
            Stage::Latest => match Self::content("latest.txt", reply) {
                Ok(version) => {
                    let name = manifest_path(version.as_str());
                    self.latest_elm = version;
                    self.stage = Stage::Deps;
                    Step::Read { path: self.static_path(name.as_str()) }
                },
                Err(error) => {
                    self.stage = Stage::Idle;
                    Step::Failed { error }
                },
            },
            Stage::Deps => {
                let name = manifest_path(self.latest_elm.as_str());
                match Self::content(name.as_str(), reply) {
                    Ok(text) => self.take_manifest(parse_manifest(text.as_str())),
                    Err(error) => {
                        self.stage = Stage::Idle;
                        Step::Failed { error }
                    },
                }
            },
            Stage::Listing => {
                match reply {
                    Reply::Listed => {
                        self.stage = Stage::Ready;
                        Step::Done
                    },
                    Reply::Failed(reason) => {
                        self.stage = Stage::Idle;
                        Step::Failed { error: DependencyError::IoError { message: reason } }
                    },
                    _ => {
                        self.stage = Stage::Idle;
                        Step::Failed {
                            error: DependencyError::IoError {
                                message: "unexpected reply".to_owned(),
                            },
                        }
                    },
                }
            },
            _ => Step::Failed {
                error: DependencyError::IoError { message: "unexpected reply".to_owned() },
            },
        }
    }
}

/// Where below the static root the manifest of `version` lies.
pub fn manifest_path(version: &str) -> (name: String)
    ensures
        name@ == manifest_name(version@),
{
    let mut name = "deps/".to_owned();
    name.append(version);
    name.append("/deps.json");
    name
}

/// Where below the static root the directory of `version` lies.
pub fn directory_path(version: &str) -> (name: String)
    ensures
        name@ == directory_name(version@),
{
    let mut name = "deps/".to_owned();
    name.append(version);
    name.append("/");
    name
}

/// The resolution carried on from `reply`, with `world` giving the reply to
/// each step that is asked for, through at most `steps` further steps.
pub open spec fn run(
    a: Assets,
    reply: Option<ReplyView>,
    world: spec_fn(StepView) -> ReplyView,
    steps: nat,
) -> (Assets, StepView)
    decreases steps,
{
    let (b, next) = step(a, reply);
    if steps > 0 && (next is Read || next is List) {
        run(b, Some(world(next)), world, (steps - 1) as nat)
    } else {
        (b, next)
    }
}

/// The resolution from its start, in a static tree that answers as `world`
/// does.
pub open spec fn resolve(a: Assets, world: spec_fn(StepView) -> ReplyView) -> (Assets, StepView) {
    run(a, None, world, 3)
}

/// The asset manifest of the static tree at `root` that answers as `world`
/// does: the latest version and the files of its bundles, or why there is
/// none.
pub open spec fn manifest_of(root: Seq<char>, world: spec_fn(StepView) -> ReplyView) -> Result<
    (Seq<char>, Seq<(Seq<char>, Seq<Seq<char>>)>),
    DependencyErrorView,
> {
    let latest = world(StepView::Read { path: joined_path(root, "latest.txt"@) });
    match content_of("latest.txt"@, latest) {
        Err(error) => Err(error),
        Ok(version) => {
            let name = manifest_name(version);
            let manifest = world(StepView::Read { path: joined_path(root, name) });
            match content_of(name, manifest) {
                Err(error) => Err(error),
                Ok(text) => match manifest_bundles(text) {
                    None => Err(DependencyErrorView::ParseError),
                    Some(bundles) => {
                        let walk = world(
                            StepView::List { path: joined_path(root, directory_name(version)) },
                        );
                        match walk {
                            ReplyView::Listed => Ok((version, put_all(bundles))),
                            ReplyView::Failed(reason) => Err(
                                DependencyErrorView::IoError { message: reason },
                            ),
                            _ => Err(DependencyErrorView::IoError { message: "unexpected reply"@ }),
                        }
                    },
                },
            }
        },
    }
}

/// A resolution ends within four steps, and with the manifest of the static
/// tree: on success the assets hold it and are ready, and else the error is
/// the one that the tree gives and the resolution is back where it starts.
pub proof fn resolve_gives_manifest(a: Assets, world: spec_fn(StepView) -> ReplyView)
    ensures
        match manifest_of(a.static_dir, world) {
            Ok((version, bundles)) => resolve(a, world) == (
                Assets { stage: Stage::Ready, latest: version, bundles, ..a },
                StepView::Done,
            ),
            Err(error) => {
                &&& resolve(a, world).1 == StepView::Failed { error }
                &&& resolve(a, world).0.stage == Stage::Idle
                &&& resolve(a, world).0.static_dir == a.static_dir
            },
        },
{
    reveal_with_fuel(run, 4);
}

/// A static tree without `latest.txt` is resolved to `NotFound`, and one whose
/// manifest is not the JSON that is asked for to `ParseError`. Where the
/// resolution succeeds, the latest version is the content of `latest.txt`
/// without the white space around it.
pub proof fn resolution_fails_as_the_tree_does(a: Assets, world: spec_fn(StepView) -> ReplyView)
    ensures
        world(StepView::Read { path: joined_path(a.static_dir, "latest.txt"@) }) is Missing
            ==> resolve(a, world).1 == (StepView::Failed {
            error: DependencyErrorView::NotFound { path: "latest.txt"@ },
        }),
        ({
            let latest = world(StepView::Read { path: joined_path(a.static_dir, "latest.txt"@) });
            let name = manifest_name(trimmed(latest->Text_0));
            let manifest = world(StepView::Read { path: joined_path(a.static_dir, name) });
            &&& (latest is Text && manifest is Text && manifest_bundles(
                trimmed(manifest->Text_0),
            ) is None) ==> resolve(a, world).1 == (StepView::Failed {
                error: DependencyErrorView::ParseError,
            })
            &&& resolve(a, world).1 is Done ==> latest is Text && resolve(a, world).0.latest
                == trimmed(latest->Text_0)
        }),
{
    resolve_gives_manifest(a, world);
}

/// Two resolutions in one static tree end alike, whatever the settings held
/// before: with the same step, and on success with the same latest version
/// and the same dependencies.
pub proof fn resolution_is_deterministic(
    a: Assets,
    b: Assets,
    world: spec_fn(StepView) -> ReplyView,
)
    requires
        a.static_dir == b.static_dir,
    ensures
        resolve(a, world).1 == resolve(b, world).1,
        resolve(a, world).1 is Done ==> resolve(a, world).0 == resolve(b, world).0,
{
    resolve_gives_manifest(a, world);
    resolve_gives_manifest(b, world);
}

} // verus!

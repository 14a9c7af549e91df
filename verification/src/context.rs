//! The execution context of one invocation: where the home, cache and
//! download directories lie, where the workspace starts, and what the
//! configuration says. The context is built step by step from what its
//! caller observed (a variable of the environment, whether a directory
//! exists, what a file holds); what a step wants changed outside the
//! process it records as effects, for the caller to carry out.

use crate::config::{
    config_build_dir, config_lang_mode, effective, empty_config, Config, ConfigView, Configs,
    DocumentView, General, LangMode, Locality,
};
use crate::text::equal;
use vstd::prelude::*;
use vstd::string::{StrSliceExecFns, StringExecFns};

verus! {

/// The name of the file that marks a cache directory.
pub const CACHE_TAG_FILE: &'static str = "CACHEDIR.TAG";

/// What the file that marks a cache directory holds.
pub const CACHE_TAG: &'static str =
    "Signature: 8a477f597d28d172789f06886806bc55\n# This file is a cache directory tag created by orbit.\n# For information about cache directory tags see https://bford.info/cachedir/\n";

/// The name of the file that marks the root of a workspace.
pub const MANIFEST_FILE: &'static str = "Orbit.toml";

/// The name of the hidden folder, under the user's home directory for the
/// home of the tool and under a workspace for its local configuration.
pub const HIDDEN_FOLDER: &'static str = ".orbit";

/// The name of the cache directory under the home of the tool.
pub const CACHE_FOLDER: &'static str = "cache";

/// The name of the download directory under the home of the tool.
pub const DOWNLOADS_FOLDER: &'static str = "downloads";

/// The path of `child` inside the directory `base`.
pub open spec fn join(base: Seq<char>, child: Seq<char>) -> Seq<char> {
    if base.len() == 0 {
        child
    } else if base.last() == '/' {
        base + child
    } else {
        base + seq!['/'] + child
    }
}

/// The path of `child` inside the directory `base`.
pub fn join_path(base: &str, child: &str) -> (r: String)
    ensures
        r@ == join(base@, child@),
{
    let n = base.unicode_len();
    if n == 0 {
        return String::from_str(child);
    }
    let mut out = String::from_str(base);
    if base.get_char(n - 1) != '/' {
        out.push('/');
    }
    out.append(child);
    out
}

/// Why a context cannot be built or used.
#[derive(Debug, PartialEq)]
pub struct ContextError(pub String);

impl View for ContextError {
    type V = Seq<char>;

    open spec fn view(&self) -> Seq<char> {
        self.0@
    }
}

impl ContextError {
    /// The text that reports the error to the user.
    pub fn to_string(&self) -> (r: String)
        ensures
            r@ == self@,
    {
        self.0.clone()
    }
}

/// Something to change outside the process.
#[derive(Debug, PartialEq)]
pub enum Effect {
    /// Create this directory: it was found missing.
    CreateDir(String),
    /// Set this variable of the environment to this value.
    Export(String, String),
    /// Set this variable of the environment to this path, made absolute and
    /// written in its standard form.
    ExportPath(String, String),
    /// Write this file with this content.
    WriteFile(String, String),
}

/// `Effect` as plain values.
pub enum EffectView {
    CreateDir(Seq<char>),
    Export(Seq<char>, Seq<char>),
    ExportPath(Seq<char>, Seq<char>),
    WriteFile(Seq<char>, Seq<char>),
}

impl View for Effect {
    type V = EffectView;

    open spec fn view(&self) -> EffectView {
        match self {
            Effect::CreateDir(path) => EffectView::CreateDir(path@),
            Effect::Export(key, value) => EffectView::Export(key@, value@),
            Effect::ExportPath(key, path) => EffectView::ExportPath(key@, path@),
            Effect::WriteFile(path, content) => EffectView::WriteFile(path@, content@),
        }
    }
}

/// The effects in `effects`, as plain values.
pub open spec fn effects_view(effects: Seq<Effect>) -> Seq<EffectView> {
    effects.map_values(|e: Effect| e@)
}

/// What the environment says of a directory, together with what the file
/// system says of the directory that is then meant.
#[derive(Debug, PartialEq)]
pub enum Override {
    /// The variable is not set; `default_exists` says whether the directory
    /// that is taken in its place exists.
    Unset { default_exists: bool },
    /// The variable names `path`.
    Named { path: String, exists: bool, is_dir: bool },
}

/// `Override` as plain values.
pub enum OverrideView {
    Unset { default_exists: bool },
    Named { path: Seq<char>, exists: bool, is_dir: bool },
}

impl View for Override {
    type V = OverrideView;

    open spec fn view(&self) -> OverrideView {
        match self {
            Override::Unset { default_exists } => OverrideView::Unset {
                default_exists: *default_exists,
            },
            Override::Named { path, exists, is_dir } => OverrideView::Named {
                path: path@,
                exists: *exists,
                is_dir: *is_dir,
            },
        }
    }
}

/// What loading a configuration file gave.
#[derive(Debug, PartialEq)]
pub enum Loaded {
    /// There is no such file.
    Absent,
    /// The file is no settings document; the text says why.
    Malformed(String),
    /// The settings that the file holds.
    Parsed(Config),
}

/// `Loaded` as plain values.
pub enum LoadedView {
    Absent,
    Malformed(Seq<char>),
    Parsed(ConfigView),
}

impl View for Loaded {
    type V = LoadedView;

    open spec fn view(&self) -> LoadedView {
        match self {
            Loaded::Absent => LoadedView::Absent,
            Loaded::Malformed(reason) => LoadedView::Malformed(reason@),
            Loaded::Parsed(config) => LoadedView::Parsed(config@),
        }
    }
}

/// A directory and the names of what lies directly in it; no names where
/// the directory cannot be read.
#[derive(Debug, PartialEq)]
pub struct DirListing {
    pub path: String,
    pub entries: Option<Vec<String>>,
}

/// `DirListing` as plain values.
pub struct DirListingView {
    pub path: Seq<char>,
    pub entries: Option<Seq<Seq<char>>>,
}

impl View for DirListing {
    type V = DirListingView;

    open spec fn view(&self) -> DirListingView {
        DirListingView {
            path: self.path@,
            entries: match self.entries {
                Some(names) => Some(names@.map_values(|s: String| s@)),
                None => None,
            },
        }
    }
}

/// The listings in `chain`, as plain values.
pub open spec fn chain_view(chain: Seq<DirListing>) -> Seq<DirListingView> {
    chain.map_values(|d: DirListing| d@)
}

/// Whether the file `target` lies directly in the listed directory.
pub open spec fn holds(listing: DirListingView, target: Seq<char>) -> bool {
    listing.entries is Some && listing.entries->Some_0.contains(target)
}

/// The first directory of `chain` that holds `target`, if one does.
pub open spec fn first_holding(chain: Seq<DirListingView>, target: Seq<char>) -> Option<
    Seq<char>,
>
    decreases chain.len(),
{
    if chain.len() == 0 {
        None
    } else if holds(chain[0], target) {
        Some(chain[0].path)
    } else {
        first_holding(chain.drop_first(), target)
    }
}

/// Whether what was read of the cache tag is what the tag must hold.
pub open spec fn tag_valid(content: Option<Seq<char>>) -> bool {
    content == Some(CACHE_TAG@)
}

/// The report of a directory that the environment names and that does not
/// exist.
pub open spec fn missing_text(path: Seq<char>, key: Seq<char>) -> Seq<char> {
    "directory "@ + path + " does not exist for "@ + key
}

/// The report of a path that the environment names and that is no
/// directory.
pub open spec fn not_dir_text(key: Seq<char>) -> Seq<char> {
    key + " must be a filesystem directory"@
}

/// The report of a home directory that cannot be found.
pub open spec fn no_home_text() -> Seq<char> {
    "failed to detect user's home directory; please set the ORBIT_HOME environment variable"@
}

/// The report of a missing workspace.
pub open spec fn no_ip_text() -> Seq<char> {
    "no orbit IP detected in current directory or any parent directory"@
}

/// The report of a configuration file that is no settings document.
pub open spec fn malformed_text(path: Seq<char>, reason: Seq<char>) -> Seq<char> {
    "failed to load configuration file "@ + path + ": "@ + reason
}

/// The directory that `resolve` decides on, whether or not it is usable:
/// the one that the environment names, else `folder` under `home`.
pub open spec fn candidate_of(home: Seq<char>, folder: Seq<char>, over: OverrideView) -> Seq<char> {
    match over {
        OverrideView::Named { path, .. } => path,
        OverrideView::Unset { .. } => join(home, folder),
    }
}

/// What becomes of a directory that the environment names under `key`: it
/// must exist and be a directory, is then used as it stands, and is
/// recorded under `key`; nothing is created.
pub open spec fn take_named(key: Seq<char>, path: Seq<char>, exists: bool, is_dir: bool) -> Result<
    (Seq<char>, Seq<EffectView>),
    Seq<char>,
> {
    if !exists {
        Err(missing_text(path, key))
    } else if !is_dir {
        Err(not_dir_text(key))
    } else {
        Ok((path, seq![EffectView::ExportPath(key, path)]))
    }
}

/// What becomes of the directory `path` that is taken where the
/// environment names none: it is created if it is missing, and recorded
/// under `key`.
pub open spec fn take_default(key: Seq<char>, path: Seq<char>, exists: bool) -> (
    Seq<char>,
    Seq<EffectView>,
) {
    if exists {
        (path, seq![EffectView::ExportPath(key, path)])
    } else {
        (path, seq![EffectView::CreateDir(path), EffectView::ExportPath(key, path)])
    }
}

/// How a directory is resolved. A directory that the environment names
/// must exist and be a directory; it is used as it stands and nothing is
/// created. Without one the directory is `folder` under `home`, created if
/// it is missing. Either way the result is recorded under `key`.
pub open spec fn resolve(home: Seq<char>, key: Seq<char>, folder: Seq<char>, over: OverrideView)
    -> Result<(Seq<char>, Seq<EffectView>), Seq<char>> {
    match over {
        OverrideView::Named { path, exists, is_dir } => take_named(key, path, exists, is_dir),
        OverrideView::Unset { default_exists } => Ok(
            take_default(key, join(home, folder), default_exists),
        ),
    }
}

/// How the home directory is resolved. A directory that the environment
/// names is held to what every other directory is held to. Without one the
/// home is the hidden folder under the user's home directory, created if
/// it is missing; where that directory is unknown there is no home.
pub open spec fn resolve_home(key: Seq<char>, over: OverrideView, user_home: Option<Seq<char>>)
    -> Result<(Seq<char>, Seq<EffectView>), Seq<char>> {
    match over {
        OverrideView::Named { path, exists, is_dir } => take_named(key, path, exists, is_dir),
        OverrideView::Unset { default_exists } => match user_home {
            None => Err(no_home_text()),
            Some(h) => Ok(take_default(key, join(h, HIDDEN_FOLDER@), default_exists)),
        },
    }
}

/// What repairs the cache tag of the directory `dir`: nothing where the
/// tag is valid, else writing it anew.
pub open spec fn tag_repair(dir: Seq<char>, content: Option<Seq<char>>) -> Seq<EffectView> {
    if tag_valid(content) {
        Seq::empty()
    } else {
        seq![EffectView::WriteFile(join(dir, CACHE_TAG_FILE@), CACHE_TAG@)]
    }
}

/// Where the global configuration file `name` lies.
pub open spec fn global_path(home: Seq<char>, name: Seq<char>) -> Seq<char> {
    join(home, name)
}

/// Where the local configuration file `name` of the workspace `ip` lies.
pub open spec fn local_path(ip: Seq<char>, name: Seq<char>) -> Seq<char> {
    join(join(ip, HIDDEN_FOLDER@), name)
}

/// The documents that make up the configuration, or why there is none. The
/// global document comes first, empty where its file is absent. The local
/// one follows where a workspace is known and its file exists. A file that
/// is no settings document is an error that names the file.
pub open spec fn layers_of(
    home: Seq<char>,
    ip: Option<Seq<char>>,
    name: Seq<char>,
    global: LoadedView,
    local: LoadedView,
) -> Result<Seq<DocumentView>, Seq<char>> {
    let first = DocumentView {
        path: global_path(home, name),
        locality: Locality::Global,
        config: match global {
            LoadedView::Parsed(c) => c,
            _ => empty_config(),
        },
    };
    match global {
        LoadedView::Malformed(reason) => Err(malformed_text(global_path(home, name), reason)),
        _ => match (ip, local) {
            (Some(root), LoadedView::Malformed(reason)) => Err(
                malformed_text(local_path(root, name), reason),
            ),
            (Some(root), LoadedView::Parsed(c)) => Ok(
                seq![
                    first,
                    DocumentView {
                        path: local_path(root, name),
                        locality: Locality::Local,
                        config: c,
                    },
                ],
            ),
            _ => Ok(seq![first]),
        },
    }
}

/// Shared facts about the surroundings of one invocation.
#[derive(Debug)]
pub struct Context {
    home_path: String,
    cache_path: String,
    download_path: String,
    ip_path: Option<String>,
    config: Config,
    all_configs: Configs,
    effects: Vec<Effect>,
}

/// `Context` as plain values.
pub struct ContextView {
    pub home_path: Seq<char>,
    pub cache_path: Seq<char>,
    pub download_path: Seq<char>,
    pub ip_path: Option<Seq<char>>,
    pub config: ConfigView,
    pub all_configs: Seq<DocumentView>,
    pub effects: Seq<EffectView>,
}

impl View for Context {
    type V = ContextView;

    closed spec fn view(&self) -> ContextView {
        ContextView {
            home_path: self.home_path@,
            cache_path: self.cache_path@,
            download_path: self.download_path@,
            ip_path: match self.ip_path {
                Some(p) => Some(p@),
                None => None,
            },
            config: self.config@,
            all_configs: self.all_configs@,
            effects: effects_view(self.effects@),
        }
    }
}

fn text_of(message: &str, path: &str, middle: &str, key: &str) -> (r: String)
    ensures
        r@ == message@ + path@ + middle@ + key@,
{
    let mut out = String::from_str(message);
    out.append(path);
    out.append(middle);
    out.append(key);
    out
}

/// Checks a directory that the environment names under `key`: see
/// `take_named`.
fn check_named(key: &str, path: String, exists: bool, is_dir: bool) -> (r: Result<
    (String, Vec<Effect>),
    ContextError,
>)
    ensures
        match take_named(key@, path@, exists, is_dir) {
            Ok((dir, effects)) => r is Ok && r->Ok_0.0@ == dir && effects_view(r->Ok_0.1@)
                == effects,
            Err(text) => r is Err && r->Err_0@ == text,
        },
{
    if !exists {
        Err(ContextError(text_of("directory ", path.as_str(), " does not exist for ", key)))
    } else if !is_dir {
        let mut text = String::from_str(key);
        text.append(" must be a filesystem directory");
        Err(ContextError(text))
    } else {
        let mut effects: Vec<Effect> = Vec::new();
        effects.push(Effect::ExportPath(String::from_str(key), path.clone()));
        assert(effects_view(effects@) =~= seq![EffectView::ExportPath(key@, path@)]);
        Ok((path, effects))
    }
}

/// Takes the directory `path` where the environment names none: see
/// `take_default`.
fn use_default(key: &str, path: String, exists: bool) -> (r: (String, Vec<Effect>))
    ensures
        r.0@ == take_default(key@, path@, exists).0,
        effects_view(r.1@) == take_default(key@, path@, exists).1,
{
    let mut effects: Vec<Effect> = Vec::new();
    if !exists {
        effects.push(Effect::CreateDir(path.clone()));
    }
    effects.push(Effect::ExportPath(String::from_str(key), path.clone()));
    assert(effects_view(effects@) =~= take_default(key@, path@, exists).1);
    (path, effects)
}

/// Puts the effects `more` behind `effects`.
fn append_effects(effects: &mut Vec<Effect>, more: Vec<Effect>)
    ensures
        effects_view(final(effects)@) == effects_view(old(effects)@) + effects_view(more@),
{
    let mut more = more;
    let ghost added = more@;
    effects.append(&mut more);
    assert(effects_view(old(effects)@ + added) =~= effects_view(old(effects)@) + effects_view(
        added,
    ));
}

impl Context {
    /// A context whose directories lie under `temp_dir`, with no workspace
    /// and no configuration.
    pub fn new(temp_dir: &str) -> (r: Context)
        ensures
            r@ == (ContextView {
                home_path: temp_dir@,
                cache_path: join(temp_dir@, CACHE_FOLDER@),
                download_path: join(temp_dir@, DOWNLOADS_FOLDER@),
                ip_path: None,
                config: empty_config(),
                all_configs: Seq::empty(),
                effects: Seq::empty(),
            }),
    {
        let r = Context {
            home_path: String::from_str(temp_dir),
            cache_path: join_path(temp_dir, CACHE_FOLDER),
            download_path: join_path(temp_dir, DOWNLOADS_FOLDER),
            ip_path: None,
            config: Config::new(),
            all_configs: Configs::new(),
            effects: Vec::new(),
        };
        assert(effects_view(r.effects@) =~= Seq::<EffectView>::empty());
        r
    }

    /// Where the home directory lies when the environment names none: the
    /// hidden folder under the home directory `user_home` of the user.
    pub fn default_home(user_home: &str) -> (r: String)
        ensures
            r@ == join(user_home@, HIDDEN_FOLDER@),
    {
        join_path(user_home, HIDDEN_FOLDER)
    }

    /// Sets the home directory: see `resolve_home`. `over` is what the
    /// environment says under `key`, `user_home` the home directory of the
    /// user, if known.
    pub fn home(self, key: &str, over: Override, user_home: Option<&str>) -> (r: Result<
        Context,
        ContextError,
    >)
        ensures
            match resolve_home(
                key@,
                over@,
                match user_home {
                    Some(h) => Some(h@),
                    None => None,
                },
            ) {
                Ok((path, effects)) => r is Ok && r->Ok_0@ == (ContextView {
                    home_path: path,
                    effects: self@.effects + effects,
                    ..self@
                }),
                Err(text) => r is Err && r->Err_0@ == text,
            },
    {
        let mut context = self;
        let resolved = match over {
            Override::Named { path, exists, is_dir } => check_named(key, path, exists, is_dir),
            Override::Unset { default_exists } => match user_home {
                None => Err(
                    ContextError(
                        String::from_str(
                            "failed to detect user's home directory; please set the ORBIT_HOME environment variable",
                        ),
                    ),
                ),
                Some(h) => Ok(use_default(key, Context::default_home(h), default_exists)),
            },
        };
        match resolved {
            Err(e) => Err(e),
            Ok((path, effects)) => {
                append_effects(&mut context.effects, effects);
                context.home_path = path;
                Ok(context)
            },
        }
    }

    /// Where `folder` lies when the environment names no directory for it:
    /// under the home directory.
    pub fn default_folder(&self, folder: &str) -> (r: String)
        ensures
            r@ == join(self@.home_path, folder@),
    {
        join_path(self.home_path.as_str(), folder)
    }

    /// The directory that `cache` or `downloads` decides on for `folder`,
    /// given what the environment says: where the caller looks for the
    /// cache tag.
    pub fn candidate(&self, folder: &str, over: &Override) -> (r: String)
        ensures
            r@ == candidate_of(self@.home_path, folder@, over@),
    {
        match over {
            Override::Named { path, .. } => path.clone(),
            Override::Unset { .. } => self.default_folder(folder),
        }
    }

    /// Resolves the directory to use under `key`: see `resolve`. Gives the
    /// directory and what is to be changed outside for it.
    pub fn folder(&self, key: &str, folder: &str, over: Override) -> (r: Result<
        (String, Vec<Effect>),
        ContextError,
    >)
        ensures
            match resolve(self@.home_path, key@, folder@, over@) {
                Ok((path, effects)) => r is Ok && r->Ok_0.0@ == path && effects_view(r->Ok_0.1@)
                    == effects,
                Err(text) => r is Err && r->Err_0@ == text,
            },
    {
        match over {
            Override::Named { path, exists, is_dir } => check_named(key, path, exists, is_dir),
            Override::Unset { default_exists } => Ok(
                use_default(key, self.default_folder(folder), default_exists),
            ),
        }
    }

    /// Sets the cache directory: see `resolve`, with the folder `cache`.
    /// `tag` is what the tag file of that directory holds, if it can be
    /// read; unless that is what it must hold, the tag is written anew.
    pub fn cache(self, key: &str, over: Override, tag: Option<&str>) -> (r: Result<
        Context,
        ContextError,
    >)
        ensures
            match resolve(self@.home_path, key@, CACHE_FOLDER@, over@) {
                Ok((path, effects)) => r is Ok && r->Ok_0@ == (ContextView {
                    cache_path: path,
                    effects: self@.effects + effects + tag_repair(
                        path,
                        match tag {
                            Some(t) => Some(t@),
                            None => None,
                        },
                    ),
                    ..self@
                }),
                Err(text) => r is Err && r->Err_0@ == text,
            },
    {
        let mut context = self;
        match context.folder(key, CACHE_FOLDER, over) {
            Err(e) => Err(e),
            Ok((path, effects)) => {
                append_effects(&mut context.effects, effects);
                match Context::is_cache_tag_valid(path.as_str(), tag) {
                    Ok(()) => {
                        assert(context.effects@.map_values(|e: Effect| e@)
                            + Seq::<EffectView>::empty() =~= context.effects@.map_values(
                            |e: Effect| e@,
                        ));
                    },
                    Err(file) => {
                        let mut repair: Vec<Effect> = Vec::new();
                        repair.push(Effect::WriteFile(file, String::from_str(CACHE_TAG)));
                        assert(effects_view(repair@) =~= seq![
                            EffectView::WriteFile(join(path@, CACHE_TAG_FILE@), CACHE_TAG@),
                        ]);
                        append_effects(&mut context.effects, repair);
                    },
                }
                context.cache_path = path;
                Ok(context)
            },
        }
    }

    /// Tests the cache tag of the directory `dir`, from what its tag file
    /// holds (`None` where it is no file or cannot be read). An invalid tag
    /// gives the path of the file to write.
    pub fn is_cache_tag_valid(dir: &str, content: Option<&str>) -> (r: Result<(), String>)
        ensures
            r is Ok <==> tag_valid(
                match content {
                    Some(t) => Some(t@),
                    None => None,
                },
            ),
            r is Err ==> r->Err_0@ == join(dir@, CACHE_TAG_FILE@),
    {
        match content {
            None => Err(join_path(dir, CACHE_TAG_FILE)),
            Some(text) => {
                if equal(text, CACHE_TAG) {
                    Ok(())
                } else {
                    Err(join_path(dir, CACHE_TAG_FILE))
                }
            },
        }
    }

    /// Sets the download directory: see `resolve`, with the folder
    /// `downloads`.
    pub fn downloads(self, key: &str, over: Override) -> (r: Result<Context, ContextError>)
        ensures
            match resolve(self@.home_path, key@, DOWNLOADS_FOLDER@, over@) {
                Ok((path, effects)) => r is Ok && r->Ok_0@ == (ContextView {
                    download_path: path,
                    effects: self@.effects + effects,
                    ..self@
                }),
                Err(text) => r is Err && r->Err_0@ == text,
            },
    {
        let mut context = self;
        match context.folder(key, DOWNLOADS_FOLDER, over) {
            Err(e) => Err(e),
            Ok((path, effects)) => {
                append_effects(&mut context.effects, effects);
                context.download_path = path;
                Ok(context)
            },
        }
    }

    /// Tests whether a command is to be matched against batch files: on
    /// Windows, unless the environment asks for literal commands.
    pub fn enable_windows_bat_file_match(windows: bool, literal: bool) -> (r: bool)
        ensures
            r == (windows && !literal),
    {
        windows && !literal
    }

    /// The cache directory.
    pub fn get_cache_path(&self) -> (r: &String)
        ensures
            r@ == self@.cache_path,
    {
        &self.cache_path
    }

    /// The download directory.
    pub fn get_downloads_path(&self) -> (r: &String)
        ensures
            r@ == self@.download_path,
    {
        &self.download_path
    }

    /// Where the global configuration file `name` lies.
    pub fn global_config_path(&self, name: &str) -> (r: String)
        ensures
            r@ == global_path(self@.home_path, name@),
    {
        join_path(self.home_path.as_str(), name)
    }

    /// Where the local configuration file `name` lies, if a workspace is
    /// known.
    pub fn local_config_path(&self, name: &str) -> (r: Option<String>)
        ensures
            match self@.ip_path {
                Some(root) => r is Some && r->Some_0@ == local_path(root, name@),
                None => r is None,
            },
    {
        match &self.ip_path {
            Some(root) => {
                let folder = join_path(root.as_str(), HIDDEN_FOLDER);
                Some(join_path(folder.as_str(), name))
            },
            None => None,
        }
    }

    /// Loads the configuration: see `layers_of`. `global` is what loading
    /// the global file `name` gave, `local` what loading the local one
    /// gave. An absent global file is to be created empty.
    pub fn settings(self, name: &str, global: Loaded, local: Loaded) -> (r: Result<
        Context,
        ContextError,
    >)
        ensures
            match layers_of(self@.home_path, self@.ip_path, name@, global@, local@) {
                Ok(layers) => r is Ok && r->Ok_0@ == (ContextView {
                    all_configs: layers,
                    config: effective(layers),
                    effects: self@.effects + if global@ is Absent {
                        seq![
                            EffectView::WriteFile(
                                global_path(self@.home_path, name@),
                                Seq::<char>::empty(),
                            ),
                        ]
                    } else {
                        Seq::<EffectView>::empty()
                    },
                    ..self@
                }),
                Err(text) => r is Err && r->Err_0@ == text,
            },
    {
        let mut context = self;
        let global_file = context.global_config_path(name);
        let mut created: Vec<Effect> = Vec::new();
        let first = match global {
            Loaded::Malformed(reason) => {
                return Err(
                    ContextError(
                        text_of(
                            "failed to load configuration file ",
                            global_file.as_str(),
                            ": ",
                            reason.as_str(),
                        ),
                    ),
                );
            },
            Loaded::Absent => {
                created.push(Effect::WriteFile(global_file.clone(), String::new()));
                Config::new()
            },
            Loaded::Parsed(c) => c,
        };
        assert(effects_view(created@) =~= if global@ is Absent {
            seq![
                EffectView::WriteFile(global_path(self@.home_path, name@), Seq::<char>::empty()),
            ]
        } else {
            Seq::<EffectView>::empty()
        });
        let mut layers = Configs::new().load(global_file, Locality::Global, first);
        match context.local_config_path(name) {
            None => {},
            Some(local_file) => match local {
                Loaded::Malformed(reason) => {
                    return Err(
                        ContextError(
                            text_of(
                                "failed to load configuration file ",
                                local_file.as_str(),
                                ": ",
                                reason.as_str(),
                            ),
                        ),
                    );
                },
                Loaded::Parsed(c) => {
                    layers = layers.load(local_file, Locality::Local, c);
                },
                Loaded::Absent => {},
            },
        }
        assert(layers@ =~= layers_of(
            self@.home_path,
            self@.ip_path,
            name@,
            global@,
            local@,
        )->Ok_0);
        append_effects(&mut context.effects, created);
        context.config = layers.flatten();
        context.all_configs = layers;
        Ok(context)
    }

    /// The effective configuration.
    pub fn get_config(&self) -> (r: &Config)
        ensures
            r@ == self@.config,
    {
        &self.config
    }

    /// The documents that were loaded.
    pub fn get_all_configs(&self) -> (r: &Configs)
        ensures
            r@ == self@.all_configs,
    {
        &self.all_configs
    }

    /// The effective configuration, to change it.
    pub fn get_config_mut(&mut self) -> (r: &mut Config)
        ensures
            r@ == old(self)@.config,
            final(self)@ == (ContextView { config: final(r)@, ..old(self)@ }),
    {
        &mut self.config
    }

    /// The name of the build directory.
    pub fn get_build_dir(&self) -> (r: String)
        ensures
            r@ == config_build_dir(self@.config),
    {
        match self.config.get_general() {
            Some(g) => g.get_build_dir(),
            None => General::new().get_build_dir(),
        }
    }

    /// The language mode.
    pub fn get_lang_mode(&self) -> (r: LangMode)
        ensures
            r == config_lang_mode(self@.config),
    {
        match self.config.get_general() {
            Some(g) => g.get_lang_mode(),
            None => General::new().get_lang_mode(),
        }
    }

    /// The root of the workspace, if one was found.
    pub fn get_ip_path(&self) -> (r: Option<&String>)
        ensures
            match r {
                Some(p) => self@.ip_path == Some(p@),
                None => self@.ip_path is None,
            },
    {
        self.ip_path.as_ref()
    }

    /// The home directory.
    pub fn get_home_path(&self) -> (r: &String)
        ensures
            r@ == self@.home_path,
    {
        &self.home_path
    }

    /// Sets the root of the workspace to the first directory of `chain`
    /// that holds the manifest, and records it under `key`. `chain` lists
    /// the current directory and then each of its ancestors.
    pub fn current_ip_dir(self, key: &str, chain: &Vec<DirListing>) -> (r: Result<
        Context,
        ContextError,
    >)
        ensures
            r is Ok,
            r->Ok_0@ == (ContextView {
                ip_path: first_holding(chain_view(chain@), MANIFEST_FILE@),
                effects: self@.effects + match first_holding(chain_view(chain@), MANIFEST_FILE@) {
                    Some(root) => seq![EffectView::Export(key@, root)],
                    None => Seq::<EffectView>::empty(),
                },
                ..self@
            }),
    {
        let mut context = self;
        let mut found: Vec<Effect> = Vec::new();
        let root = Context::find_ip_path(chain);
        match &root {
            Some(cwd) => {
                found.push(Effect::Export(String::from_str(key), cwd.clone()));
            },
            None => {},
        }
        assert(effects_view(found@) =~= match first_holding(chain_view(chain@), MANIFEST_FILE@) {
            Some(root) => seq![EffectView::Export(key@, root)],
            None => Seq::<EffectView>::empty(),
        });
        append_effects(&mut context.effects, found);
        context.ip_path = root;
        Ok(context)
    }

    /// The directory to change to for a command that works in the
    /// workspace: its root, or an error where no workspace was found.
    pub fn goto_ip_path(&self) -> (r: Result<String, ContextError>)
        ensures
            match self@.ip_path {
                Some(root) => r is Ok && r->Ok_0@ == root,
                None => r is Err && r->Err_0@ == no_ip_text(),
            },
    {
        match &self.ip_path {
            Some(cwd) => Ok(cwd.clone()),
            None => Err(
                ContextError(
                    String::from_str(
                        "no orbit IP detected in current directory or any parent directory",
                    ),
                ),
            ),
        }
    }

    /// The first directory of `chain` that holds the manifest of a
    /// workspace.
    pub fn find_ip_path(chain: &Vec<DirListing>) -> (r: Option<String>)
        ensures
            match r {
                Some(p) => first_holding(chain_view(chain@), MANIFEST_FILE@) == Some(p@),
                None => first_holding(chain_view(chain@), MANIFEST_FILE@) is None,
            },
    {
        Context::find_target_path(chain, MANIFEST_FILE)
    }

    /// The first directory of `chain` that holds the file `target_file`.
    /// `chain` lists a directory and then each of its ancestors; a
    /// directory that could not be read holds nothing.
    pub fn find_target_path(chain: &Vec<DirListing>, target_file: &str) -> (r: Option<String>)
        ensures
            match r {
                Some(p) => first_holding(chain_view(chain@), target_file@) == Some(p@),
                None => first_holding(chain_view(chain@), target_file@) is None,
            },
    {
        let ghost all = chain_view(chain@);
        let mut i: usize = 0;
        assert(all.subrange(0, all.len() as int) =~= all);
        while i < chain.len()
            invariant
                i <= chain.len(),
                all == chain_view(chain@),
                first_holding(all, target_file@) == first_holding(
                    all.subrange(i as int, all.len() as int),
                    target_file@,
                ),
            decreases chain.len() - i,
        {
            let ghost rest = all.subrange(i as int, all.len() as int);
            assert(rest[0] == chain@[i as int]@);
            assert(rest.drop_first() =~= all.subrange(i + 1, all.len() as int));
            if listing_holds(&chain[i], target_file) {
                return Some(chain[i].path.clone());
            }
            i += 1;
        }
        None
    }

    /// Records the name of the build directory under `key`.
    pub fn build_dir(self, key: &str) -> (r: Result<Context, ContextError>)
        ensures
            r is Ok,
            r->Ok_0@ == (ContextView {
                effects: self@.effects.push(
                    EffectView::Export(key@, config_build_dir(self@.config)),
                ),
                ..self@
            }),
    {
        let mut context = self;
        let mut export: Vec<Effect> = Vec::new();
        export.push(Effect::Export(String::from_str(key), context.get_build_dir()));
        assert(effects_view(export@) =~= seq![
            EffectView::Export(key@, config_build_dir(self@.config)),
        ]);
        append_effects(&mut context.effects, export);
        assert(self@.effects + seq![EffectView::Export(key@, config_build_dir(self@.config))]
            =~= self@.effects.push(EffectView::Export(key@, config_build_dir(self@.config))));
        Ok(context)
    }

    /// Hands out the effects recorded so far, in order, and forgets them.
    pub fn take_effects(&mut self) -> (r: Vec<Effect>)
        ensures
            effects_view(r@) == old(self)@.effects,
            final(self)@ == (ContextView { effects: Seq::empty(), ..old(self)@ }),
    {
        let mut out: Vec<Effect> = Vec::new();
        std::mem::swap(&mut out, &mut self.effects);
        assert(effects_view(self.effects@) =~= Seq::<EffectView>::empty());
        out
    }
}

/// Tests whether the file `target` lies directly in the listed directory.
pub fn listing_holds(listing: &DirListing, target: &str) -> (r: bool)
    ensures
        r == holds(listing@, target@),
{
    match &listing.entries {
        None => false,
        Some(names) => {
            let ghost views = names@.map_values(|s: String| s@);
            let mut i: usize = 0;
            while i < names.len()
                invariant
                    i <= names.len(),
                    views == names@.map_values(|s: String| s@),
                    listing@.entries == Some(views),
                    forall|k: int| 0 <= k < i ==> views[k] != target@,
                decreases names.len() - i,
            {
                if equal(names[i].as_str(), target) {
                    assert(views[i as int] == target@);
                    assert(views.contains(target@));
                    return true;
                }
                i += 1;
            }
            false
        },
    }
}

/// A directory that the environment names, and that exists as one, is
/// used as it stands: the path is the one named, and nothing is created.
pub proof fn lemma_override_is_exact(
    home: Seq<char>,
    key: Seq<char>,
    folder: Seq<char>,
    path: Seq<char>,
)
    ensures
        resolve(home, key, folder, OverrideView::Named { path, exists: true, is_dir: true }) == Ok::<
            (Seq<char>, Seq<EffectView>),
            Seq<char>,
        >((path, seq![EffectView::ExportPath(key, path)])),
{
}

/// Without a directory named by the environment, resolution never fails
/// and gives the folder under the home, which is created exactly where it
/// is missing. Resolving again, when the environment holds what the first
/// resolution recorded and the directory exists, gives the same directory,
/// again without failing, and so does resolving again without the record;
/// neither asks for anything to be created.
pub proof fn lemma_resolution_is_idempotent(
    home: Seq<char>,
    key: Seq<char>,
    folder: Seq<char>,
    default_exists: bool,
)
    ensures
        ({
            let first = resolve(home, key, folder, OverrideView::Unset { default_exists });
            let recorded = resolve(
                home,
                key,
                folder,
                OverrideView::Named { path: join(home, folder), exists: true, is_dir: true },
            );
            let again = resolve(home, key, folder, OverrideView::Unset { default_exists: true });
            &&& first is Ok
            &&& first->Ok_0.0 == join(home, folder)
            &&& first->Ok_0.1.contains(EffectView::CreateDir(join(home, folder)))
                <==> !default_exists
            &&& recorded is Ok && recorded->Ok_0.0 == first->Ok_0.0
            &&& again is Ok && again->Ok_0.0 == first->Ok_0.0
            &&& recorded->Ok_0.1 == seq![EffectView::ExportPath(key, join(home, folder))]
            &&& again->Ok_0.1 == seq![EffectView::ExportPath(key, join(home, folder))]
        }),
{
    let dir = join(home, folder);
    let both = seq![EffectView::CreateDir(dir), EffectView::ExportPath(key, dir)];
    assert(both[0] == EffectView::CreateDir(dir));
    let one = seq![EffectView::ExportPath(key, dir)];
    assert(!one.contains(EffectView::CreateDir(dir))) by {
        if one.contains(EffectView::CreateDir(dir)) {
            let i = choose|i: int| 0 <= i < one.len() && one[i] == EffectView::CreateDir(dir);
            assert(one[i] == EffectView::ExportPath(key, dir));
        }
    }
}

/// Every resolution that succeeds records the directory it decided on
/// under its key, as its last effect, in the form of a path to be made
/// absolute.
pub proof fn lemma_resolution_is_recorded(
    home: Seq<char>,
    key: Seq<char>,
    folder: Seq<char>,
    over: OverrideView,
)
    requires
        resolve(home, key, folder, over) is Ok,
    ensures
        resolve(home, key, folder, over)->Ok_0.1.last() == EffectView::ExportPath(
            key,
            resolve(home, key, folder, over)->Ok_0.0,
        ),
        resolve(home, key, folder, over)->Ok_0.0 == candidate_of(home, folder, over),
{
}

/// The home directory is resolved as every other directory is, with the
/// hidden folder under the user's home directory as its default: a
/// directory that the environment names is held to the same, and only
/// without a name and without a known home directory of the user is there
/// nothing to fall back on.
pub proof fn lemma_home_is_resolved_alike(
    key: Seq<char>,
    over: OverrideView,
    user_home: Option<Seq<char>>,
    home: Seq<char>,
    folder: Seq<char>,
)
    ensures
        over is Named ==> resolve_home(key, over, user_home) == resolve(home, key, folder, over),
        user_home is Some ==> resolve_home(key, over, user_home) == resolve(
            user_home->Some_0,
            key,
            HIDDEN_FOLDER@,
            over,
        ),
        over is Unset && user_home is None ==> resolve_home(key, over, user_home) == Err::<
            (Seq<char>, Seq<EffectView>),
            Seq<char>,
        >(no_home_text()),
{
}

/// The cache tag heals itself. What the tag must hold is valid and needs no
/// repair; anything else, and a tag that cannot be read, is invalid and is
/// answered by writing what the tag must hold, which is valid in turn.
pub proof fn lemma_tag_heals(dir: Seq<char>, content: Option<Seq<char>>)
    ensures
        tag_valid(Some(CACHE_TAG@)),
        tag_repair(dir, Some(CACHE_TAG@)) == Seq::<EffectView>::empty(),
        content != Some(CACHE_TAG@) ==> !tag_valid(content) && tag_repair(dir, content) == seq![
            EffectView::WriteFile(join(dir, CACHE_TAG_FILE@), CACHE_TAG@),
        ],
        forall|i: int|
            0 <= i < tag_repair(dir, content).len() ==> ((#[trigger] tag_repair(
                dir,
                content,
            )[i]) matches EffectView::WriteFile(_, written) && tag_valid(Some(written))),
{
}

/// The directory that a search gives holds the file directly, and no
/// directory before it in the chain does; a search that gives nothing
/// means that no directory of the chain holds the file.
pub proof fn lemma_first_holding(chain: Seq<DirListingView>, target: Seq<char>)
    ensures
        match first_holding(chain, target) {
            Some(p) => exists|i: int|
                0 <= i < chain.len() && holds(#[trigger] chain[i], target) && chain[i].path == p
                    && forall|j: int| 0 <= j < i ==> !holds(#[trigger] chain[j], target),
            None => forall|i: int| 0 <= i < chain.len() ==> !holds(#[trigger] chain[i], target),
        },
    decreases chain.len(),
{
    if chain.len() > 0 {
        if holds(chain[0], target) {
            assert(holds(chain[0], target) && chain[0].path == first_holding(
                chain,
                target,
            )->Some_0);
        } else {
            let rest = chain.drop_first();
            lemma_first_holding(rest, target);
            match first_holding(rest, target) {
                Some(p) => {
                    let i = choose|i: int|
                        0 <= i < rest.len() && holds(#[trigger] rest[i], target) && rest[i].path
                            == p && forall|j: int|
                            0 <= j < i ==> !holds(#[trigger] rest[j], target);
                    assert(chain[i + 1] == rest[i]);
                    assert forall|j: int| 0 <= j < i + 1 implies !holds(
                        #[trigger] chain[j],
                        target,
                    ) by {
                        if j > 0 {
                            assert(chain[j] == rest[j - 1]);
                        }
                    }
                    assert(holds(chain[i + 1], target) && chain[i + 1].path == p);
                },
                None => {
                    assert forall|i: int| 0 <= i < chain.len() implies !holds(
                        #[trigger] chain[i],
                        target,
                    ) by {
                        if i > 0 {
                            assert(chain[i] == rest[i - 1]);
                        }
                    }
                },
            }
        }
    }
}

} // verus!

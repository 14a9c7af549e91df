//! Configuration in layers: a global document, an optional local one that
//! overrides it field by field, and built-in defaults under both.

use vstd::prelude::*;
use vstd::string::StringExecFns;

verus! {

/// The build directory where no document names one.
pub const DEFAULT_BUILD_DIR: &'static str = "build";

/// Where a configuration document comes from.
#[derive(Clone, Copy, Debug, PartialEq, Eq, Structural)]
pub enum Locality {
    /// The document under the home directory.
    Global,
    /// The document inside the workspace.
    Local,
}

/// Which languages are supported.
#[derive(Clone, Copy, Debug, PartialEq, Eq, Structural)]
pub enum LangMode {
    Vhdl,
    Verilog,
    Mixed,
}

/// The language mode where no document names one.
pub open spec fn default_lang_mode() -> LangMode {
    LangMode::Vhdl
}

impl Default for LangMode {
    fn default() -> (r: LangMode)
        ensures
            r == default_lang_mode(),
    {
        LangMode::Vhdl
    }
}

/// The general settings of one document: each field is set or left open.
#[derive(Debug, PartialEq)]
pub struct General {
    pub build_dir: Option<String>,
    pub lang_mode: Option<LangMode>,
}

/// `General` as plain values.
pub struct GeneralView {
    pub build_dir: Option<Seq<char>>,
    pub lang_mode: Option<LangMode>,
}

impl View for General {
    type V = GeneralView;

    open spec fn view(&self) -> GeneralView {
        GeneralView {
            build_dir: match self.build_dir {
                Some(d) => Some(d@),
                None => None,
            },
            lang_mode: self.lang_mode,
        }
    }
}

/// The build directory that general settings give: the one they name, or
/// the default.
pub open spec fn build_dir_of(g: GeneralView) -> Seq<char> {
    match g.build_dir {
        Some(d) => d,
        None => DEFAULT_BUILD_DIR@,
    }
}

/// The language mode that general settings give: the one they name, or the
/// default.
pub open spec fn lang_mode_of(g: GeneralView) -> LangMode {
    match g.lang_mode {
        Some(m) => m,
        None => default_lang_mode(),
    }
}

/// General settings with every field left open.
pub open spec fn open_general() -> GeneralView {
    GeneralView { build_dir: None, lang_mode: None }
}

/// `over` laid on `base`: each field is that of `over` where `over` sets
/// it, and that of `base` otherwise.
pub open spec fn merge_general(base: GeneralView, over: GeneralView) -> GeneralView {
    GeneralView {
        build_dir: if over.build_dir is Some {
            over.build_dir
        } else {
            base.build_dir
        },
        lang_mode: if over.lang_mode is Some {
            over.lang_mode
        } else {
            base.lang_mode
        },
    }
}

impl General {
    /// General settings with every field left open.
    pub fn new() -> (r: General)
        ensures
            r@ == open_general(),
    {
        General { build_dir: None, lang_mode: None }
    }

    /// The build directory: the one set, or the default.
    pub fn get_build_dir(&self) -> (r: String)
        ensures
            r@ == build_dir_of(self@),
    {
        match &self.build_dir {
            Some(d) => d.clone(),
            None => String::from_str(DEFAULT_BUILD_DIR),
        }
    }

    /// The language mode: the one set, or the default.
    pub fn get_lang_mode(&self) -> (r: LangMode)
        ensures
            r == lang_mode_of(self@),
    {
        match self.lang_mode {
            Some(m) => m,
            None => LangMode::Vhdl,
        }
    }

    /// `over` laid on these settings.
    pub fn merge(&self, over: &General) -> (r: General)
        ensures
            r@ == merge_general(self@, over@),
    {
        General {
            build_dir: match &over.build_dir {
                Some(d) => Some(d.clone()),
                None => match &self.build_dir {
                    Some(d) => Some(d.clone()),
                    None => None,
                },
            },
            lang_mode: match over.lang_mode {
                Some(m) => Some(m),
                None => self.lang_mode,
            },
        }
    }
}

/// The settings of one document, or of several laid on each other.
#[derive(Debug, PartialEq)]
pub struct Config {
    pub general: Option<General>,
}

/// `Config` as plain values.
pub struct ConfigView {
    pub general: Option<GeneralView>,
}

impl View for Config {
    type V = ConfigView;

    open spec fn view(&self) -> ConfigView {
        ConfigView {
            general: match self.general {
                Some(g) => Some(g@),
                None => None,
            },
        }
    }
}

/// Settings that say nothing.
pub open spec fn empty_config() -> ConfigView {
    ConfigView { general: None }
}

/// `over` laid on `base`, field by field.
pub open spec fn merge_config(base: ConfigView, over: ConfigView) -> ConfigView {
    ConfigView {
        general: match (base.general, over.general) {
            (Some(b), Some(o)) => Some(merge_general(b, o)),
            (None, o) => o,
            (b, None) => b,
        },
    }
}

/// The build directory that settings give.
pub open spec fn config_build_dir(c: ConfigView) -> Seq<char> {
    match c.general {
        Some(g) => build_dir_of(g),
        None => DEFAULT_BUILD_DIR@,
    }
}

/// The language mode that settings give.
pub open spec fn config_lang_mode(c: ConfigView) -> LangMode {
    match c.general {
        Some(g) => lang_mode_of(g),
        None => default_lang_mode(),
    }
}

impl Config {
    /// Settings that say nothing.
    pub fn new() -> (r: Config)
        ensures
            r@ == empty_config(),
    {
        Config { general: None }
    }

    /// The general settings, where the document has any.
    pub fn get_general(&self) -> (r: Option<&General>)
        ensures
            match r {
                Some(g) => self@.general == Some(g@),
                None => self@.general is None,
            },
    {
        self.general.as_ref()
    }

    /// `over` laid on these settings.
    pub fn merge(&self, over: &Config) -> (r: Config)
        ensures
            r@ == merge_config(self@, over@),
    {
        Config {
            general: match (&self.general, &over.general) {
                (Some(b), Some(o)) => Some(b.merge(o)),
                (None, Some(o)) => Some(o.clone()),
                (Some(b), None) => Some(b.clone()),
                (None, None) => None,
            },
        }
    }
}

impl Clone for General {
    fn clone(&self) -> (r: General)
        ensures
            r@ == self@,
    {
        General {
            build_dir: match &self.build_dir {
                Some(d) => Some(d.clone()),
                None => None,
            },
            lang_mode: self.lang_mode,
        }
    }
}

impl Clone for Config {
    fn clone(&self) -> (r: Config)
        ensures
            r@ == self@,
    {
        Config {
            general: match &self.general {
                Some(g) => Some(g.clone()),
                None => None,
            },
        }
    }
}

impl Clone for Document {
    fn clone(&self) -> (r: Document)
        ensures
            r@ == self@,
    {
        Document {
            path: self.path.clone(),
            locality: self.locality,
            config: self.config.clone(),
        }
    }
}

/// One loaded document: where it lies, where it comes from, what it says.
#[derive(Debug, PartialEq)]
pub struct Document {
    pub path: String,
    pub locality: Locality,
    pub config: Config,
}

/// `Document` as plain values.
pub struct DocumentView {
    pub path: Seq<char>,
    pub locality: Locality,
    pub config: ConfigView,
}

impl View for Document {
    type V = DocumentView;

    open spec fn view(&self) -> DocumentView {
        DocumentView { path: self.path@, locality: self.locality, config: self.config@ }
    }
}

/// The documents that were loaded, in the order of loading.
#[derive(Debug)]
pub struct Configs {
    layers: Vec<Document>,
}

impl View for Configs {
    type V = Seq<DocumentView>;

    closed spec fn view(&self) -> Seq<DocumentView> {
        self.layers@.map_values(|d: Document| d@)
    }
}

/// What the documents `layers` say together: each laid on those before it,
/// starting from settings that say nothing.
pub open spec fn effective(layers: Seq<DocumentView>) -> ConfigView
    decreases layers.len(),
{
    if layers.len() == 0 {
        empty_config()
    } else {
        merge_config(effective(layers.drop_last()), layers.last().config)
    }
}

impl Configs {
    /// No documents.
    pub fn new() -> (r: Configs)
        ensures
            r@ == Seq::<DocumentView>::empty(),
    {
        let r = Configs { layers: Vec::new() };
        assert(r@ =~= Seq::<DocumentView>::empty());
        r
    }

    /// These documents and, after them, the document `config` that was
    /// read from `path`.
    pub fn load(self, path: String, locality: Locality, config: Config) -> (r: Configs)
        ensures
            r@ == self@.push(DocumentView { path: path@, locality, config: config@ }),
    {
        let mut layers = self.layers;
        layers.push(Document { path, locality, config });
        let r = Configs { layers };
        assert(r@ =~= self@.push(DocumentView { path: path@, locality, config: config@ }));
        r
    }

    /// Number of documents.
    pub fn len(&self) -> (r: usize)
        ensures
            r == self@.len(),
    {
        self.layers.len()
    }

    /// The document at `index`, in the order of loading.
    pub fn get(&self, index: usize) -> (r: Option<&Document>)
        ensures
            match r {
                Some(d) => index < self@.len() && d@ == self@[index as int],
                None => index >= self@.len(),
            },
    {
        if index < self.layers.len() {
            Some(&self.layers[index])
        } else {
            None
        }
    }

    /// What the documents say together.
    pub fn flatten(&self) -> (r: Config)
        ensures
            r@ == effective(self@),
    {
        let mut out = Config::new();
        let mut i: usize = 0;
        assert(self@.subrange(0, 0) =~= Seq::<DocumentView>::empty());
        while i < self.layers.len()
            invariant
                i <= self.layers.len(),
                self@.len() == self.layers.len(),
                out@ == effective(self@.subrange(0, i as int)),
            decreases self.layers.len() - i,
        {
            let ghost head = self@.subrange(0, i + 1);
            assert(head.drop_last() =~= self@.subrange(0, i as int));
            assert(head.last() == self.layers@[i as int]@);
            out = out.merge(&self.layers[i].config);
            i += 1;
        }
        assert(self@.subrange(0, self@.len() as int) =~= self@);
        out
    }
}

/// With a global and a local document, each field of what they say
/// together is the local one where the local document sets it, the global
/// one where only the global document does, and open where neither does.
pub proof fn lemma_local_overrides_global(global: DocumentView, local: DocumentView)
    ensures
        ({
            let both = effective(seq![global, local]);
            let g = match global.config.general {
                Some(g) => g,
                None => open_general(),
            };
            let l = match local.config.general {
                Some(l) => l,
                None => open_general(),
            };
            &&& config_build_dir(both) == if l.build_dir is Some {
                l.build_dir->Some_0
            } else if g.build_dir is Some {
                g.build_dir->Some_0
            } else {
                DEFAULT_BUILD_DIR@
            }
            &&& config_lang_mode(both) == if l.lang_mode is Some {
                l.lang_mode->Some_0
            } else if g.lang_mode is Some {
                g.lang_mode->Some_0
            } else {
                default_lang_mode()
            }
        }),
{
    let layers = seq![global, local];
    assert(layers.drop_last() =~= seq![global]);
    lemma_single_layer(global);
}

/// A single document says what it says: every field it sets is visible,
/// every other takes the default.
pub proof fn lemma_single_layer(global: DocumentView)
    ensures
        effective(seq![global]) == global.config,
{
    let none = seq![global].drop_last();
    assert(none.len() == 0);
    assert(effective(none) == empty_config());
    assert(seq![global].last() == global);
    assert(effective(seq![global]) == merge_config(effective(none), global.config));
}

/// However many documents are loaded, one more on top decides every field
/// that it sets and leaves every other field as it was.
pub proof fn lemma_top_layer_decides(layers: Seq<DocumentView>, top: DocumentView)
    ensures
        ({
            let below = effective(layers);
            let all = effective(layers.push(top));
            let t = match top.config.general {
                Some(g) => g,
                None => open_general(),
            };
            &&& config_build_dir(all) == if t.build_dir is Some {
                t.build_dir->Some_0
            } else {
                config_build_dir(below)
            }
            &&& config_lang_mode(all) == if t.lang_mode is Some {
                t.lang_mode->Some_0
            } else {
                config_lang_mode(below)
            }
        }),
{
    assert(layers.push(top).drop_last() =~= layers);
    assert(layers.push(top).last() == top);
}

} // verus!

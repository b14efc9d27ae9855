//! A module loader that serves one in-memory entry module and leaves every
//! other module to a delegate.

use crate::specifier::{absolute, parsed_url};
use vstd::prelude::*;

verus! {

/// The source of a module, with the identifiers it was asked for and found under.
#[derive(Clone, Debug, PartialEq, Eq)]
pub struct ModuleSource {
    pub code: String,
    pub module_url_specified: String,
    pub module_url_found: String,
}

/// A module's source, with its texts as sequences of characters.
pub struct ModuleSourceView {
    pub code: Seq<char>,
    pub module_url_specified: Seq<char>,
    pub module_url_found: Seq<char>,
}

impl View for ModuleSource {
    type V = ModuleSourceView;

    open spec fn view(&self) -> ModuleSourceView {
        ModuleSourceView {
            code: self.code@,
            module_url_specified: self.module_url_specified@,
            module_url_found: self.module_url_found@,
        }
    }
}

/// What resolving a specifier comes to.
#[derive(Clone, Debug, PartialEq, Eq)]
pub enum Resolution {
    /// The specifier names the entry module; `module` is its canonical identifier.
    Entry { module: String },
    /// The delegate resolves it, from exactly these arguments.
    Delegate { specifier: String, referrer: String, is_main: bool },
}

/// A resolution, with its texts as sequences of characters.
pub enum ResolutionView {
    Entry { module: Seq<char> },
    Delegate { specifier: Seq<char>, referrer: Seq<char>, is_main: bool },
}

impl View for Resolution {
    type V = ResolutionView;

    open spec fn view(&self) -> ResolutionView {
        match self {
            Resolution::Entry { module } => ResolutionView::Entry { module: module@ },
            Resolution::Delegate { specifier, referrer, is_main } => ResolutionView::Delegate {
                specifier: specifier@,
                referrer: referrer@,
                is_main: *is_main,
            },
        }
    }
}

/// What loading a module comes to.
#[derive(Clone, Debug, PartialEq, Eq)]
pub enum Loading {
    /// The module is the entry module; this is its source.
    Entry { source: ModuleSource },
    /// The delegate loads it, from exactly these arguments.
    Delegate { module: String, referrer: Option<String>, is_dynamic: bool },
}

/// A loading, with its texts as sequences of characters.
pub enum LoadingView {
    Entry { source: ModuleSourceView },
    Delegate { module: Seq<char>, referrer: Option<Seq<char>>, is_dynamic: bool },
}

impl View for Loading {
    type V = LoadingView;

    open spec fn view(&self) -> LoadingView {
        match self {
            Loading::Entry { source } => LoadingView::Entry { source: source@ },
            Loading::Delegate { module, referrer, is_dynamic } => LoadingView::Delegate {
                module: module@,
                referrer: text_of(*referrer),
                is_dynamic: *is_dynamic,
            },
        }
    }
}

/// The text that an optional string holds.
pub open spec fn text_of(text: Option<String>) -> Option<Seq<char>> {
    match text {
        Some(text) => Some(text@),
        None => None,
    }
}

/// The entry module's source text and the one specifier under which it is served.
#[derive(Clone, Debug, PartialEq, Eq)]
pub struct EmbeddedModuleLoader {
    pub entry_source: String,
    pub entry_specifier: String,
}

/// A loader, with its texts as sequences of characters.
pub struct EmbeddedModuleLoaderView {
    pub entry_source: Seq<char>,
    pub entry_specifier: Seq<char>,
}

impl View for EmbeddedModuleLoader {
    type V = EmbeddedModuleLoaderView;

    open spec fn view(&self) -> EmbeddedModuleLoaderView {
        EmbeddedModuleLoaderView {
            entry_source: self.entry_source@,
            entry_specifier: self.entry_specifier@,
        }
    }
}

impl EmbeddedModuleLoaderView {
    /// Resolution, given what the URL parser made of the specifier: the entry
    /// module where the specifier parses as an absolute identifier and is,
    /// letter for letter, the entry specifier; the delegate otherwise.
    pub open spec fn resolution(
        self,
        specifier: Seq<char>,
        referrer: Seq<char>,
        is_main: bool,
        parsed: Option<Seq<char>>,
    ) -> ResolutionView {
        match parsed {
            Some(module) if specifier == self.entry_specifier => ResolutionView::Entry { module },
            _ => ResolutionView::Delegate { specifier, referrer, is_main },
        }
    }

    /// Loading: the held source, verbatim, where the module's canonical text
    /// is the entry specifier; the delegate otherwise.
    pub open spec fn loading(
        self,
        module: Seq<char>,
        referrer: Option<Seq<char>>,
        is_dynamic: bool,
    ) -> LoadingView {
        if module == self.entry_specifier {
            LoadingView::Entry {
                source: ModuleSourceView {
                    code: self.entry_source,
                    module_url_specified: module,
                    module_url_found: module,
                },
            }
        } else {
            LoadingView::Delegate { module, referrer, is_dynamic }
        }
    }
}

/// Whether two texts are the same, letter for letter.
pub fn same_text(left: &str, right: &str) -> (same: bool)
    ensures
        same == (left@ == right@),
{
    let left = String::from_str(left);
    let right = String::from_str(right);
    left == right
}

impl EmbeddedModuleLoader {
    /// A loader that serves `entry_source` under `entry_specifier`.
    pub fn new(entry_source: String, entry_specifier: String) -> (loader: EmbeddedModuleLoader)
        ensures
            loader@.entry_source == entry_source@,
            loader@.entry_specifier == entry_specifier@,
    {
        EmbeddedModuleLoader { entry_source, entry_specifier }
    }

    /// Decides a resolution from the parser's answer on `specifier`.
    pub fn resolve_parsed(
        &self,
        specifier: &str,
        referrer: &str,
        is_main: bool,
        parsed: Option<String>,
    ) -> (resolution: Resolution)
        ensures
            resolution@ == self@.resolution(specifier@, referrer@, is_main, text_of(parsed)),
    {
        if let Some(module) = parsed {
            if same_text(specifier, self.entry_specifier.as_str()) {
                return Resolution::Entry { module };
            }
        }
        Resolution::Delegate {
            specifier: String::from_str(specifier),
            referrer: String::from_str(referrer),
            is_main,
        }
    }

    /// Resolves `specifier`: to the entry module where it names it, to the
    /// delegate otherwise, which then gets the three arguments unchanged.
    pub fn resolve(&self, specifier: &str, referrer: &str, is_main: bool) -> (resolution:
        Resolution)
        ensures
            resolution@ == self@.resolution(specifier@, referrer@, is_main, parsed_url(specifier@)),
    {
        let parsed = absolute(specifier);
        self.resolve_parsed(specifier, referrer, is_main, parsed)
    }

    /// Loads the module whose canonical text is `module_specifier`: the held
    /// entry source where that is the entry specifier, the delegate's answer
    /// otherwise.
    pub fn load(
        &self,
        module_specifier: &str,
        maybe_referrer: Option<String>,
        is_dynamic: bool,
    ) -> (loading: Loading)
        ensures
            loading@ == self@.loading(module_specifier@, text_of(maybe_referrer), is_dynamic),
    {
        if !same_text(module_specifier, self.entry_specifier.as_str()) {
            return Loading::Delegate {
                module: String::from_str(module_specifier),
                referrer: maybe_referrer,
                is_dynamic,
            };
        }
        let code = self.entry_source.clone();
        Loading::Entry {
            source: ModuleSource {
                code,
                module_url_specified: String::from_str(module_specifier),
                module_url_found: String::from_str(module_specifier),
            },
        }
    }
}

} // verus!

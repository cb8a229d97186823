//! The build manifest as the pipeline core reads it: the application
//! identity, the runtime it targets, its modules, and the run
//! configuration. Parsing the manifest document into this shape is the
//! caller's business; the application-id validation lives here.

use vstd::prelude::*;

use vstd::string::StrSliceExecFns;

use crate::errors::Error;
use crate::text::views;

verus! {

/// One buildable unit of a manifest: either a structured description or
/// a bare reference to an external one.
#[derive(Clone, Debug)]
pub enum Module {
    Object {
        name: String,
        buildsystem: Option<String>,
        config_opts: Option<Vec<String>>,
        build_commands: Option<Vec<String>>,
        post_install: Option<Vec<String>>,
    },
    Reference(String),
}

impl Module {
    /// The module's name: its declared name, or the reference itself.
    pub fn name(&self) -> (r: &str)
        ensures
            r@ == self@.name(),
    {
        match self {
            Module::Object { name, .. } => name.as_str(),
            Module::Reference(s) => s.as_str(),
        }
    }
}

/// The declarative document describing an application package, reduced
/// to the fields the pipeline core reads.
#[derive(Clone, Debug)]
pub struct Manifest {
    pub id: String,
    pub sdk: String,
    pub runtime: String,
    pub runtime_version: String,
    pub command: String,
    pub x_run_args: Option<Vec<String>>,
    pub modules: Vec<Module>,
    pub finish_args: Vec<String>,
    pub cleanup: Vec<String>,
}

/// The mathematical value of a `Module`.
#[verifier::ext_equal]
pub ghost enum ModuleView {
    Object {
        name: Seq<char>,
        buildsystem: Option<Seq<char>>,
        config_opts: Option<Seq<Seq<char>>>,
        build_commands: Option<Seq<Seq<char>>>,
        post_install: Option<Seq<Seq<char>>>,
    },
    Reference(Seq<char>),
}

/// The mathematical value of a `Manifest`.
#[verifier::ext_equal]
pub ghost struct ManifestView {
    pub id: Seq<char>,
    pub sdk: Seq<char>,
    pub runtime: Seq<char>,
    pub runtime_version: Seq<char>,
    pub command: Seq<char>,
    pub x_run_args: Option<Seq<Seq<char>>>,
    pub modules: Seq<ModuleView>,
    pub finish_args: Seq<Seq<char>>,
    pub cleanup: Seq<Seq<char>>,
}

/// The views of an optional list of strings.
pub open spec fn opt_views(o: Option<Vec<String>>) -> Option<Seq<Seq<char>>> {
    match o {
        Some(v) => Some(views(v@)),
        None => None,
    }
}

impl View for Module {
    type V = ModuleView;

    open spec fn view(&self) -> ModuleView {
        match self {
            Module::Object { name, buildsystem, config_opts, build_commands, post_install } => (
            ModuleView::Object {
                name: name@,
                buildsystem: match buildsystem {
                    Some(b) => Some(b@),
                    None => None,
                },
                config_opts: opt_views(*config_opts),
                build_commands: opt_views(*build_commands),
                post_install: opt_views(*post_install),
            }),
            Module::Reference(s) => ModuleView::Reference(s@),
        }
    }
}

impl ModuleView {
    /// The identity a module contributes: its declared name, or the
    /// reference itself.
    pub open spec fn name(self) -> Seq<char> {
        match self {
            ModuleView::Object { name, .. } => name,
            ModuleView::Reference(s) => s,
        }
    }
}

impl View for Manifest {
    type V = ManifestView;

    open spec fn view(&self) -> ManifestView {
        ManifestView {
            id: self.id@,
            sdk: self.sdk@,
            runtime: self.runtime@,
            runtime_version: self.runtime_version@,
            command: self.command@,
            x_run_args: opt_views(self.x_run_args),
            modules: Seq::new(self.modules@.len(), |i: int| self.modules@[i]@),
            finish_args: views(self.finish_args@),
            cleanup: views(self.cleanup@),
        }
    }
}

impl Manifest {
    /// Checks the manifest's application identifier: a manifest whose id
    /// is not a valid reverse-DNS-style name is rejected.
    pub fn validate(&self) -> (r: Result<(), Error>)
        ensures
            r is Ok <==> spec_valid_app_id(self@.id),
            r is Err ==> r == Err::<(), Error>(Error::InvalidAppId),
    {
        if is_valid_dbus_name(self.id.as_str()) {
            Ok(())
        } else {
            Err(Error::InvalidAppId)
        }
    }

    /// The name of the final module, the one whose build the dependency
    /// stages stop at.
    pub fn last_module_name(&self) -> (r: &str)
        requires
            self@.modules.len() > 0,
        ensures
            r@ == self@.modules.last().name(),
    {
        let m = &self.modules[self.modules.len() - 1];
        m.name()
    }
}

/// An ASCII decimal digit.
pub open spec fn is_digit_char(c: char) -> bool {
    '0' as u32 <= c as u32 && c as u32 <= '9' as u32
}

/// A character allowed inside an application-id segment: ASCII
/// alphanumeric, `-` or `_`.
pub open spec fn is_segment_char(c: char) -> bool {
    ||| ('a' as u32 <= c as u32 && c as u32 <= 'z' as u32)
    ||| ('A' as u32 <= c as u32 && c as u32 <= 'Z' as u32)
    ||| is_digit_char(c)
    ||| c == '-'
    ||| c == '_'
}

/// A valid application identifier: a dot-separated reverse-DNS-style
/// name of at most 255 characters with at least two segments, each
/// nonempty, starting with a non-digit, and made of segment characters
/// only.
pub open spec fn spec_valid_app_id(s: Seq<char>) -> bool {
    &&& 1 <= s.len() <= 255
    &&& exists|i: int| 0 <= i < s.len() && #[trigger] s[i] == '.'
    &&& forall|i: int| 0 <= i < s.len() ==> #[trigger] s[i] == '.' || is_segment_char(s[i])
    &&& s[0] != '.' && !is_digit_char(s[0])
    &&& s[s.len() - 1] != '.'
    &&& forall|i: int| 0 < i < s.len() && #[trigger] s[i] == '.' ==> s[i - 1] != '.'
    &&& forall|i: int| 0 <= i < s.len() - 1 && #[trigger] s[i] == '.' ==> !is_digit_char(s[i + 1])
}

fn is_digit(c: char) -> (r: bool)
    ensures
        r == is_digit_char(c),
{
    '0' as u32 <= c as u32 && c as u32 <= '9' as u32
}

fn is_segment(c: char) -> (r: bool)
    ensures
        r == is_segment_char(c),
{
    ('a' as u32 <= c as u32 && c as u32 <= 'z' as u32) || ('A' as u32 <= c as u32 && c as u32
        <= 'Z' as u32) || is_digit(c) || c == '-' || c == '_'
}

/// Whether `name` is a valid application identifier.
pub fn is_valid_dbus_name(name: &str) -> (r: bool)
    ensures
        r == spec_valid_app_id(name@),
{
    let n = name.unicode_len();
    if n == 0 || n > 255 {
        return false;
    }
    let first = name.get_char(0);
    if first == '.' || is_digit(first) {
        return false;
    }
    if name.get_char(n - 1) == '.' {
        return false;
    }
    let mut has_dot = false;
    let mut i: usize = 0;
    while i < n
        invariant
            n == name@.len(),
            1 <= n <= 255,
            i <= n,
            name@[0] != '.' && !is_digit_char(name@[0]),
            name@[n - 1] != '.',
            has_dot == exists|j: int| 0 <= j < i && #[trigger] name@[j] == '.',
            forall|j: int| 0 <= j < i ==> #[trigger] name@[j] == '.' || is_segment_char(name@[j]),
            forall|j: int| 0 < j < i && #[trigger] name@[j] == '.' ==> name@[j - 1] != '.',
            forall|j: int| 0 <= j < i && #[trigger] name@[j] == '.' ==> !is_digit_char(name@[j + 1]),
        decreases n - i,
    {
        let c = name.get_char(i);
        if c == '.' {
            proof {
                assert(i != 0);
                assert(i != n - 1);
            }
            if name.get_char(i - 1) == '.' {
                return false;
            }
            if is_digit(name.get_char(i + 1)) {
                return false;
            }
            has_dot = true;
            proof {
                assert(name@[i as int] == '.');
            }
        } else {
            if !is_segment(c) {
                return false;
            }
        }
        i += 1;
    }
    has_dot
}

} // verus!

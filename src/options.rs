//! The rewrite's configuration, and the paths it derives from it.
use vstd::prelude::*;
use crate::naming::{derive_name, camel_to_dash, push_char};

verus! {

/// Whether, and in which form, a stylesheet import goes with each component.
#[derive(Clone, Copy, Debug, PartialEq, Eq, Structural)]
pub enum StyleOption {
    Off,
    On,
    /// Import the compiled CSS (`.../style/css`).
    Css,
}

impl Default for StyleOption {
    fn default() -> (r: Self)
        ensures
            r == StyleOption::On,
    {
        StyleOption::On
    }
}

/// A fixed component path that replaces the derived one.
pub enum CustomNameOption {
    Literal(String),
}

/// Configuration of one module transform.
pub struct Options {
    /// The module specifier whose imports are rewritten.
    pub library_name: String,
    pub library_directory: String,
    pub custom_name: Option<CustomNameOption>,
    pub style_library_directory: Option<String>,
    pub camel_2_dash_component_name: bool,
    pub transform_to_default_import: bool,
    pub style: StyleOption,
}

pub fn default_library_directory() -> (r: String)
    ensures
        r@ == seq!['l', 'i', 'b'],
{
    let mut s = String::new();
    push_char(&mut s, 'l');
    push_char(&mut s, 'i');
    push_char(&mut s, 'b');
    s
}

pub fn default_camel_2_dash_component_name() -> (r: bool)
    ensures
        r,
{
    true
}

pub fn default_transform_to_default_import() -> (r: bool)
    ensures
        r,
{
    true
}

impl Options {
    /// The configuration with every optional setting at its default.
    pub fn new(library_name: String) -> (r: Options)
        ensures
            r.library_name@ == library_name@,
            r.library_directory@ == seq!['l', 'i', 'b'],
            r.custom_name is None,
            r.style_library_directory is None,
            r.camel_2_dash_component_name,
            r.transform_to_default_import,
            r.style == StyleOption::On,
    {
        Options {
            library_name,
            library_directory: default_library_directory(),
            custom_name: None,
            style_library_directory: None,
            camel_2_dash_component_name: default_camel_2_dash_component_name(),
            transform_to_default_import: default_transform_to_default_import(),
            style: StyleOption::default(),
        }
    }
}

impl Default for Options {
    /// The defaults with an empty library name, which no import matches.
    fn default() -> (r: Self)
        ensures
            r.library_name@ == Seq::<char>::empty(),
            r.library_directory@ == seq!['l', 'i', 'b'],
            r.custom_name is None,
            r.style_library_directory is None,
            r.camel_2_dash_component_name,
            r.transform_to_default_import,
            r.style == StyleOption::On,
    {
        Options::new(String::new())
    }
}

pub open spec fn slash() -> Seq<char> {
    seq!['/']
}

/// `a/b/c`.
pub open spec fn join3(a: Seq<char>, b: Seq<char>, c: Seq<char>) -> Seq<char> {
    a + slash() + b + slash() + c
}

/// The module path of the component that `id` names.
pub open spec fn component_path(id: Seq<char>, o: Options) -> Seq<char> {
    match o.custom_name {
        Some(CustomNameOption::Literal(s)) => derive_name(s@, o.camel_2_dash_component_name),
        None => join3(
            o.library_name@,
            o.library_directory@,
            derive_name(id, o.camel_2_dash_component_name),
        ),
    }
}

pub open spec fn imports_style(o: Options) -> bool {
    o.style != StyleOption::Off || o.style_library_directory is Some
}

pub open spec fn style_suffix(style: StyleOption) -> Seq<char> {
    if style == StyleOption::Css {
        seq!['s', 't', 'y', 'l', 'e', '/', 'c', 's', 's']
    } else {
        seq!['s', 't', 'y', 'l', 'e']
    }
}

/// The stylesheet path of the component that `id` names; only meaningful when
/// `imports_style(o)` holds (see `style_path`).
pub open spec fn style_source(id: Seq<char>, o: Options) -> Seq<char> {
    match o.style_library_directory {
        Some(d) => join3(o.library_name@, d@, derive_name(id, o.camel_2_dash_component_name)),
        None => component_path(id, o) + slash() + style_suffix(o.style),
    }
}

/// The stylesheet import that goes with `id`, if any.
pub open spec fn style_path(id: Seq<char>, o: Options) -> Option<Seq<char>> {
    if imports_style(o) {
        Some(style_source(id, o))
    } else {
        None
    }
}

/// Appends all of `t` to `s`.
pub fn append_str(s: &mut String, t: &str)
    ensures
        final(s)@ == old(s)@ + t@,
{
    let n = t.unicode_len();
    let mut i: usize = 0;
    while i < n
        invariant
            n == t@.len(),
            i <= n,
            s@ == old(s)@ + t@.subrange(0, i as int),
        decreases n - i,
    {
        push_char(s, t.get_char(i));
        assert(t@.subrange(0, i + 1) =~= t@.subrange(0, i as int).push(t@[i as int]));
        i = i + 1;
    }
    assert(t@.subrange(0, n as int) =~= t@);
}

fn join3_exec(a: &str, b: &str, c: &str) -> (r: String)
    ensures
        r@ == join3(a@, b@, c@),
{
    let mut s = String::new();
    append_str(&mut s, a);
    push_char(&mut s, '/');
    append_str(&mut s, b);
    push_char(&mut s, '/');
    append_str(&mut s, c);
    assert(s@ =~= join3(a@, b@, c@));
    s
}

impl Options {
    /// The on-disk component name of an identifier under this configuration.
    pub fn generate_component_name(&self, source: &str) -> (r: String)
        ensures
            r@ == derive_name(source@, self.camel_2_dash_component_name),
    {
        if self.camel_2_dash_component_name {
            camel_to_dash(source)
        } else {
            let mut s = String::new();
            append_str(&mut s, source);
            assert(s@ =~= source@);
            s
        }
    }

    pub fn generate_component_path(&self, source: &str) -> (r: String)
        ensures
            r@ == component_path(source@, *self),
    {
        match &self.custom_name {
            Some(CustomNameOption::Literal(s)) => self.generate_component_name(s.as_str()),
            None => {
                let name = self.generate_component_name(source);
                join3_exec(self.library_name.as_str(), self.library_directory.as_str(), name.as_str())
            },
        }
    }

    /// The stylesheet path of the component that `source` names, or none
    /// when styles are off and no style directory is set.
    pub fn generate_style_source(&self, source: &str) -> (r: Option<String>)
        ensures
            style_path(source@, *self) == match r {
                Some(p) => Some(p@),
                None => None::<Seq<char>>,
            },
    {
        if !self.should_import_style() {
            return None;
        }
        match &self.style_library_directory {
            Some(d) => {
                let name = self.generate_component_name(source);
                Some(join3_exec(self.library_name.as_str(), d.as_str(), name.as_str()))
            },
            None => {
                let mut s = self.generate_component_path(source);
                push_char(&mut s, '/');
                push_char(&mut s, 's');
                push_char(&mut s, 't');
                push_char(&mut s, 'y');
                push_char(&mut s, 'l');
                push_char(&mut s, 'e');
                if self.style == StyleOption::Css {
                    push_char(&mut s, '/');
                    push_char(&mut s, 'c');
                    push_char(&mut s, 's');
                    push_char(&mut s, 's');
                }
                assert(s@ =~= component_path(source@, *self) + slash() + style_suffix(self.style));
                Some(s)
            },
        }
    }

    pub fn should_import_style(&self) -> (r: bool)
        ensures
            r == imports_style(*self),
    {
        self.style != StyleOption::Off || self.style_library_directory.is_some()
    }
}

}

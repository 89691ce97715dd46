//! Type-name resolution: the model of a declared Rust type reference and the
//! table that maps semantic type names to their C++ spellings.
//!
//! A reference either resolves to a C++ spelling — primitives have fixed
//! spellings, named types are looked up in the table and otherwise spelled as
//! themselves — or it has no spelling at all ([`TypeRef::Other`]), which is
//! the unresolved-type failure of the generators.

use vstd::prelude::*;
use vstd::string::StringExecFns;

use crate::text::str_eq;

verus! {

/// The name of a generated class together with the C++ namespace it lives
/// in, if any.
#[derive(Debug, PartialEq, Eq)]
pub struct Name {
    pub name: String,
    pub namespace: Option<String>,
}

/// The character view of an optional borrowed string.
pub open spec fn opt_str_view(o: Option<&str>) -> Option<Seq<char>> {
    match o {
        Some(s) => Some(s@),
        None => None,
    }
}

/// The character view of an optional owned string.
pub open spec fn opt_string_view(o: Option<String>) -> Option<Seq<char>> {
    match o {
        Some(s) => Some(s@),
        None => None,
    }
}

impl Name {
    /// An equal copy of this name.
    pub fn dup(&self) -> (r: Name)
        ensures
            r == *self,
    {
        Name {
            name: self.name.clone(),
            namespace: match &self.namespace {
                Some(ns) => Some(ns.clone()),
                None => None,
            },
        }
    }

    /// The namespace of this name, if any.
    pub fn namespace(&self) -> (r: Option<&str>)
        ensures
            opt_str_view(r) == opt_string_view(self.namespace),
    {
        match &self.namespace {
            Some(ns) => Some(ns.as_str()),
            None => None,
        }
    }
}

/// A declared Rust type reference, as handed over by the parser front end.
#[derive(Debug, PartialEq, Eq)]
pub enum TypeRef {
    /// A plain named type: a primitive or a class name.
    Named(String),
    /// A mutable raw pointer `*mut T`.
    MutPtr(Box<TypeRef>),
    /// A const raw pointer `*const T`.
    ConstPtr(Box<TypeRef>),
    /// A shared reference `&T`.
    Ref(Box<TypeRef>),
    /// A mutable reference `&mut T`.
    MutRef(Box<TypeRef>),
    /// Any other shape of type, carried as its source text.  No C++
    /// spelling exists for it; resolution fails.
    Other(String),
}

/// One entry of the type-name table.
#[derive(Debug, PartialEq, Eq)]
pub struct TypeEntry {
    pub rust_name: String,
    pub cpp_name: String,
}

/// The read-only table mapping semantic type names to namespaced C++
/// spellings, rebuilt once per generation run.
#[derive(Debug, PartialEq, Eq)]
pub struct TypeNames {
    pub entries: Vec<TypeEntry>,
}

impl Default for TypeNames {
    /// An empty table: only primitives and self-spelled names resolve.
    fn default() -> (r: TypeNames)
        ensures
            r.entries@.len() == 0,
    {
        TypeNames { entries: Vec::new() }
    }
}

impl TypeNames {
    /// Appends one mapping; later lookups see earlier entries first.
    pub fn insert(&mut self, rust_name: String, cpp_name: String)
        ensures
            final(self).entries@ == old(self).entries@.push(
                TypeEntry { rust_name, cpp_name },
            ),
    {
        self.entries.push(TypeEntry { rust_name, cpp_name });
    }
}

/// The fixed C++ spelling of a primitive Rust type name, if it is one.
pub open spec fn spec_primitive(name: Seq<char>) -> Option<Seq<char>> {
    if name == "bool"@ {
        Some("bool"@)
    } else if name == "i8"@ {
        Some("::std::int8_t"@)
    } else if name == "i16"@ {
        Some("::std::int16_t"@)
    } else if name == "i32"@ {
        Some("::std::int32_t"@)
    } else if name == "i64"@ {
        Some("::std::int64_t"@)
    } else if name == "u8"@ {
        Some("::std::uint8_t"@)
    } else if name == "u16"@ {
        Some("::std::uint16_t"@)
    } else if name == "u32"@ {
        Some("::std::uint32_t"@)
    } else if name == "u64"@ {
        Some("::std::uint64_t"@)
    } else if name == "usize"@ {
        Some("::std::size_t"@)
    } else if name == "isize"@ {
        Some("::rust::isize"@)
    } else if name == "f32"@ {
        Some("float"@)
    } else if name == "f64"@ {
        Some("double"@)
    } else {
        None
    }
}

fn primitive_spelling(name: &str) -> (r: Option<String>)
    ensures
        opt_string_view(r) == spec_primitive(name@),
{
    if str_eq(name, "bool") {
        Some("bool".to_owned())
    } else if str_eq(name, "i8") {
        Some("::std::int8_t".to_owned())
    } else if str_eq(name, "i16") {
        Some("::std::int16_t".to_owned())
    } else if str_eq(name, "i32") {
        Some("::std::int32_t".to_owned())
    } else if str_eq(name, "i64") {
        Some("::std::int64_t".to_owned())
    } else if str_eq(name, "u8") {
        Some("::std::uint8_t".to_owned())
    } else if str_eq(name, "u16") {
        Some("::std::uint16_t".to_owned())
    } else if str_eq(name, "u32") {
        Some("::std::uint32_t".to_owned())
    } else if str_eq(name, "u64") {
        Some("::std::uint64_t".to_owned())
    } else if str_eq(name, "usize") {
        Some("::std::size_t".to_owned())
    } else if str_eq(name, "isize") {
        Some("::rust::isize".to_owned())
    } else if str_eq(name, "f32") {
        Some("float".to_owned())
    } else if str_eq(name, "f64") {
        Some("double".to_owned())
    } else {
        None
    }
}

/// First-match lookup of a Rust type name in the table.
pub open spec fn spec_lookup(entries: Seq<TypeEntry>, name: Seq<char>) -> Option<Seq<char>>
    decreases entries.len(),
{
    if entries.len() == 0 {
        None
    } else if entries[0].rust_name@ == name {
        Some(entries[0].cpp_name@)
    } else {
        spec_lookup(entries.drop_first(), name)
    }
}

proof fn lemma_lookup_skip(entries: Seq<TypeEntry>, name: Seq<char>, i: int)
    requires
        0 <= i <= entries.len(),
        forall|j: int| 0 <= j < i ==> entries[j].rust_name@ != name,
    ensures
        spec_lookup(entries, name) == spec_lookup(entries.skip(i), name),
    decreases i,
{
    if i > 0 {
        lemma_lookup_skip(entries, name, i - 1);
        assert(entries.skip(i - 1).drop_first() =~= entries.skip(i));
        assert(entries.skip(i - 1)[0] == entries[i - 1]);
    } else {
        assert(entries.skip(0) =~= entries);
    }
}

impl TypeNames {
    /// The C++ spelling registered for `name`, if any.
    pub fn lookup(&self, name: &str) -> (r: Option<&String>)
        ensures
            match r {
                Some(s) => spec_lookup(self.entries@, name@) == Some(s@),
                None => spec_lookup(self.entries@, name@) is None,
            },
    {
        let mut i: usize = 0;
        while i < self.entries.len()
            invariant
                0 <= i <= self.entries@.len(),
                forall|j: int| 0 <= j < i ==> self.entries@[j].rust_name@ != name@,
            decreases self.entries@.len() - i,
        {
            if str_eq(self.entries[i].rust_name.as_str(), name) {
                proof {
                    lemma_lookup_skip(self.entries@, name@, i as int);
                    assert(self.entries@.skip(i as int)[0] == self.entries@[i as int]);
                }
                return Some(&self.entries[i].cpp_name);
            }
            i = i + 1;
        }
        proof {
            lemma_lookup_skip(self.entries@, name@, i as int);
        }
        None
    }
}

/// The C++ spelling of a type reference: primitives first, then the table,
/// then the name itself; pointers and references wrap the spelling of what
/// they point to.  `None` when the reference contains a shape with no
/// spelling.
pub open spec fn spec_resolve(t: TypeRef, entries: Seq<TypeEntry>) -> Option<Seq<char>>
    decreases t,
{
    match t {
        TypeRef::Named(n) => match spec_primitive(n@) {
            Some(s) => Some(s),
            None => match spec_lookup(entries, n@) {
                Some(s) => Some(s),
                None => Some(n@),
            },
        },
        TypeRef::MutPtr(inner) => match spec_resolve(*inner, entries) {
            Some(s) => Some(s + "*"@),
            None => None,
        },
        TypeRef::ConstPtr(inner) => match spec_resolve(*inner, entries) {
            Some(s) => Some("const "@ + s + "*"@),
            None => None,
        },
        TypeRef::Ref(inner) => match spec_resolve(*inner, entries) {
            Some(s) => Some("const "@ + s + "&"@),
            None => None,
        },
        TypeRef::MutRef(inner) => match spec_resolve(*inner, entries) {
            Some(s) => Some(s + "&"@),
            None => None,
        },
        TypeRef::Other(_) => None,
    }
}

/// Resolves a type reference to its C++ spelling via the table.
pub fn resolve_type(t: &TypeRef, table: &TypeNames) -> (r: Option<String>)
    ensures
        opt_string_view(r) == spec_resolve(*t, table.entries@),
    decreases *t,
{
    match t {
        TypeRef::Named(n) => match primitive_spelling(n.as_str()) {
            Some(s) => Some(s),
            None => match table.lookup(n.as_str()) {
                Some(s) => Some(s.clone()),
                None => Some(n.clone()),
            },
        },
        TypeRef::MutPtr(inner) => match resolve_type(inner, table) {
            Some(s) => {
                let mut out = s;
                out.append("*");
                Some(out)
            },
            None => None,
        },
        TypeRef::ConstPtr(inner) => match resolve_type(inner, table) {
            Some(s) => {
                let mut out = "const ".to_owned();
                out.append(s.as_str());
                out.append("*");
                Some(out)
            },
            None => None,
        },
        TypeRef::Ref(inner) => match resolve_type(inner, table) {
            Some(s) => {
                let mut out = "const ".to_owned();
                out.append(s.as_str());
                out.append("&");
                Some(out)
            },
            None => None,
        },
        TypeRef::MutRef(inner) => match resolve_type(inner, table) {
            Some(s) => {
                let mut out = s;
                out.append("&");
                Some(out)
            },
            None => None,
        },
        TypeRef::Other(_) => None,
    }
}

/// The Rust-side source text of a type reference, for diagnostics.
pub open spec fn spec_type_text(t: TypeRef) -> Seq<char>
    decreases t,
{
    match t {
        TypeRef::Named(n) => n@,
        TypeRef::MutPtr(inner) => "*mut "@ + spec_type_text(*inner),
        TypeRef::ConstPtr(inner) => "*const "@ + spec_type_text(*inner),
        TypeRef::Ref(inner) => "&"@ + spec_type_text(*inner),
        TypeRef::MutRef(inner) => "&mut "@ + spec_type_text(*inner),
        TypeRef::Other(s) => s@,
    }
}

/// Renders the Rust-side source text of a type reference, for diagnostics.
pub fn type_text(t: &TypeRef) -> (r: String)
    ensures
        r@ == spec_type_text(*t),
    decreases *t,
{
    match t {
        TypeRef::Named(n) => n.clone(),
        TypeRef::MutPtr(inner) => {
            let mut out = "*mut ".to_owned();
            out.append(type_text(inner).as_str());
            out
        },
        TypeRef::ConstPtr(inner) => {
            let mut out = "*const ".to_owned();
            out.append(type_text(inner).as_str());
            out
        },
        TypeRef::Ref(inner) => {
            let mut out = "&".to_owned();
            out.append(type_text(inner).as_str());
            out
        },
        TypeRef::MutRef(inner) => {
            let mut out = "&mut ".to_owned();
            out.append(type_text(inner).as_str());
            out
        },
        TypeRef::Other(s) => s.clone(),
    }
}

} // verus!

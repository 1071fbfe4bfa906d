//! The entry point of a .NET plugin, as its runtime configuration names it.
use vstd::prelude::*;
use vstd::string::*;

use crate::text::{chars_of, lemma_rfind_char, rfind_char, rfind_in};

verus! {

/// The options a .NET plugin declares in its runtime configuration.
pub struct PreloadOptions {
    /// `Namespace.Class.Method` of the plugin's entry point.
    pub plugin_entry_point: String,
}

/// The entry point's namespace: what precedes the class, that is the part
/// before the second-to-last `.` (before the only `.`, or all of it, when
/// there are fewer).
pub open spec fn namespace_of(e: Seq<char>) -> Seq<char> {
    let i = rfind_char(e, '.');
    if i < 0 {
        e
    } else {
        let p = e.take(i);
        let j = rfind_char(p, '.');
        if j < 0 {
            p
        } else {
            p.take(j)
        }
    }
}

/// The entry point's class: the segment before the last `.`.
pub open spec fn class_of(e: Seq<char>) -> Seq<char> {
    let p = e.take(rfind_char(e, '.'));
    p.skip(rfind_char(p, '.') + 1)
}

/// The entry point's method: the segment after the last `.`.
pub open spec fn method_of(e: Seq<char>) -> Seq<char> {
    e.skip(rfind_char(e, '.') + 1)
}

/// `Namespace.Class, Namespace`: the assembly-qualified name of the entry
/// point's type.
pub open spec fn type_name_of(e: Seq<char>) -> Seq<char> {
    namespace_of(e) + "."@ + class_of(e) + ", "@ + namespace_of(e)
}

/// The entry point names a method of a class: it holds a `.`.
pub open spec fn has_class(e: Seq<char>) -> bool {
    rfind_char(e, '.') >= 0
}

impl PreloadOptions {
    /// The namespace of the entry point.
    pub fn ep_namespace(&self) -> (r: &str)
        ensures
            r@ == namespace_of(self.plugin_entry_point@),
    {
        let s = self.plugin_entry_point.as_str();
        let v = chars_of(s);
        assert(v@.take(v@.len() as int) =~= v@);
        match rfind_in(&v, '.', v.len()) {
            None => s.substring_char(0, v.len()),
            Some(i) => {
                proof {
                    lemma_rfind_char(v@, '.');
                }
                assert(v@.take(i as int) =~= v@.take(i as int).take(i as int));
                match rfind_in(&v, '.', i) {
                    None => s.substring_char(0, i),
                    Some(j) => {
                        proof {
                            lemma_rfind_char(v@.take(i as int), '.');
                        }
                        assert(v@.take(i as int).take(j as int) =~= v@.subrange(0, j as int));
                        s.substring_char(0, j)
                    },
                }
            },
        }
    }

    /// The class of the entry point. The entry point must hold a `.`.
    pub fn ep_class(&self) -> (r: &str)
        requires
            has_class(self.plugin_entry_point@),
        ensures
            r@ == class_of(self.plugin_entry_point@),
    {
        let s = self.plugin_entry_point.as_str();
        let v = chars_of(s);
        assert(v@.take(v@.len() as int) =~= v@);
        proof {
            lemma_rfind_char(v@, '.');
        }
        let i = match rfind_in(&v, '.', v.len()) {
            Some(i) => i,
            None => {
                assert(false);
                0
            },
        };
        assert(v@.take(i as int) =~= v@.take(i as int).take(i as int));
        match rfind_in(&v, '.', i) {
            None => {
                assert(v@.take(i as int).skip(0) =~= v@.subrange(0, i as int));
                s.substring_char(0, i)
            },
            Some(j) => {
                proof {
                    lemma_rfind_char(v@.take(i as int), '.');
                }
                assert(v@.take(i as int).skip(j + 1) =~= v@.subrange(j + 1, i as int));
                s.substring_char(j + 1, i)
            },
        }
    }

    /// The method of the entry point.
    pub fn ep_method(&self) -> (r: &str)
        ensures
            r@ == method_of(self.plugin_entry_point@),
    {
        let s = self.plugin_entry_point.as_str();
        let v = chars_of(s);
        assert(v@.take(v@.len() as int) =~= v@);
        match rfind_in(&v, '.', v.len()) {
            None => {
                assert(v@.skip(0) =~= v@.subrange(0, v@.len() as int));
                s.substring_char(0, v.len())
            },
            Some(i) => {
                proof {
                    lemma_rfind_char(v@, '.');
                }
                assert(v@.skip(i + 1) =~= v@.subrange(i + 1, v@.len() as int));
                s.substring_char(i + 1, v.len())
            },
        }
    }

    /// The assembly-qualified name of the entry point's type,
    /// `Namespace.Class, Namespace`, under which the plugin's assembly is
    /// asked for the entry point.
    pub fn entry_point_type_name(&self) -> (r: String)
        requires
            has_class(self.plugin_entry_point@),
        ensures
            r@ == type_name_of(self.plugin_entry_point@),
    {
        let namespace = self.ep_namespace();
        let class = self.ep_class();
        let mut r = namespace.to_owned();
        r.append(".");
        r.append(class);
        r.append(", ");
        r.append(namespace);
        r
    }
}

/// An entry point with at least two `.`s is its namespace, class and
/// method joined by `.`s.
pub proof fn lemma_entry_point_parts(e: Seq<char>)
    requires
        has_class(e),
        has_class(e.take(rfind_char(e, '.'))),
    ensures
        namespace_of(e) + "."@ + class_of(e) + "."@ + method_of(e) == e,
{
    reveal_strlit(".");
    let i = rfind_char(e, '.');
    lemma_rfind_char(e, '.');
    let p = e.take(i);
    let j = rfind_char(p, '.');
    lemma_rfind_char(p, '.');
    assert(p.take(j) + "."@ + p.skip(j + 1) =~= p);
    assert(p + "."@ + e.skip(i + 1) =~= e);
}

} // verus!

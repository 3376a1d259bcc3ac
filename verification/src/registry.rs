//! The schema registry: a deduplicating store from a shape's stable name
//! to its canonical schema. Registration is idempotent for structurally
//! equal shapes and refuses a different shape under a known name.

use vstd::prelude::*;

use crate::message::str_eq;
use crate::schema::{schema_eq, schema_matches, Schema, SchemaRef};

verus! {

/// Two structurally different shapes were registered under one name.
#[derive(Debug)]
pub struct SchemaConflict {
    pub name: String,
}

/// The registry: canonical (name, shape) entries, in registration order.
pub struct SchemaRegistry {
    pub entries: Vec<(String, Schema)>,
}

/// Whether some entry carries this name.
pub open spec fn has_name(entries: Seq<(String, Schema)>, name: Seq<char>) -> bool {
    exists|i: int| 0 <= i < entries.len() && (#[trigger] entries[i]).0@ == name
}

/// Whether some entry carries this name with a structurally different
/// shape.
pub open spec fn conflicts_with(
    entries: Seq<(String, Schema)>,
    name: Seq<char>,
    schema: Schema,
) -> bool {
    exists|i: int|
        0 <= i < entries.len() && (#[trigger] entries[i]).0@ == name && !schema_matches(
            entries[i].1,
            schema,
        )
}

/// The entries after a registration: unchanged when the name is already
/// present (whether it matches or conflicts), extended otherwise.
pub open spec fn entries_after(
    entries: Seq<(String, Schema)>,
    name: String,
    schema: Schema,
) -> Seq<(String, Schema)> {
    if has_name(entries, name@) {
        entries
    } else {
        entries.push((name, schema))
    }
}

/// Well-formed: no two entries share a name.
pub open spec fn registry_wf(entries: Seq<(String, Schema)>) -> bool {
    forall|i: int, j: int|
        0 <= i < entries.len() && 0 <= j < entries.len() && i != j ==> (#[trigger] entries[i]).0@
            != (#[trigger] entries[j]).0@
}

impl SchemaRegistry {
    /// An empty registry.
    pub fn new() -> (r: Self)
        ensures
            r.entries@.len() == 0,
            registry_wf(r.entries@),
    {
        SchemaRegistry { entries: Vec::new() }
    }

    /// Register a shape under a name. Idempotent for a structurally equal
    /// shape; a structurally different shape under a known name is a
    /// conflict, and the registry is unchanged.
    pub fn register(&mut self, name: String, schema: Schema) -> (r: Result<
        SchemaRef,
        SchemaConflict,
    >)
        requires
            registry_wf(old(self).entries@),
        ensures
            registry_wf(final(self).entries@),
            final(self).entries@ == entries_after(old(self).entries@, name, schema),
            match r {
                Result::Ok(sref) => {
                    &&& !conflicts_with(old(self).entries@, name@, schema)
                    &&& sref matches SchemaRef::Named(n) && n@ == name@
                },
                Result::Err(c) => {
                    &&& conflicts_with(old(self).entries@, name@, schema)
                    &&& c.name@ == name@
                    &&& final(self).entries@ == old(self).entries@
                },
            },
    {
        let mut i: usize = 0;
        while i < self.entries.len()
            invariant
                0 <= i <= self.entries@.len(),
                *self == *old(self),
                registry_wf(self.entries@),
                forall|j: int| 0 <= j < i ==> (#[trigger] self.entries@[j]).0@ != name@,
            decreases self.entries@.len() - i,
        {
            if str_eq(self.entries[i].0.as_str(), name.as_str()) {
                if schema_eq(&self.entries[i].1, &schema) {
                    proof {
                        assert(has_name(self.entries@, name@));
                        assert forall|j: int|
                            0 <= j < self.entries@.len() && (#[trigger] self.entries@[j]).0@
                                == name@ implies schema_matches(self.entries@[j].1, schema) by {
                            assert(j == i);
                        }
                    }
                    return Result::Ok(SchemaRef::Named(name));
                } else {
                    proof {
                        assert(conflicts_with(self.entries@, name@, schema));
                        assert(has_name(self.entries@, name@));
                    }
                    return Result::Err(SchemaConflict { name });
                }
            }
            i = i + 1;
        }
        proof {
            assert(!has_name(self.entries@, name@));
            assert(!conflicts_with(self.entries@, name@, schema));
        }
        let sref = SchemaRef::Named(name.clone());
        self.entries.push((name, schema));
        proof {
            assert(registry_wf(self.entries@));
        }
        Result::Ok(sref)
    }

    /// Look a registered shape up by name: a pure lookup.
    pub fn resolve_named(&self, name: &str) -> (r: Option<&Schema>)
        requires
            registry_wf(self.entries@),
        ensures
            r is Some <==> has_name(self.entries@, name@),
            match r {
                Option::Some(s) => exists|i: int|
                    0 <= i < self.entries@.len() && (#[trigger] self.entries@[i]).0@ == name@ && *s
                        == self.entries@[i].1,
                Option::None => true,
            },
    {
        let mut i: usize = 0;
        while i < self.entries.len()
            invariant
                0 <= i <= self.entries@.len(),
                forall|j: int| 0 <= j < i ==> (#[trigger] self.entries@[j]).0@ != name@,
            decreases self.entries@.len() - i,
        {
            if str_eq(self.entries[i].0.as_str(), name) {
                return Option::Some(&self.entries[i].1);
            }
            i = i + 1;
        }
        Option::None
    }

    /// Resolve a reference: an inline shape stands for itself, a named
    /// one is looked up.
    pub fn resolve<'a>(&'a self, sref: &'a SchemaRef) -> (r: Option<&'a Schema>)
        requires
            registry_wf(self.entries@),
        ensures
            match sref {
                SchemaRef::Inline(s) => r matches Option::Some(out) && out == &**s,
                SchemaRef::Named(n) => {
                    &&& r is Some <==> has_name(self.entries@, n@)
                    &&& match r {
                        Option::Some(s) => exists|i: int|
                            0 <= i < self.entries@.len() && (#[trigger] self.entries@[i]).0@ == n@
                                && *s == self.entries@[i].1,
                        Option::None => true,
                    }
                },
            },
    {
        match sref {
            SchemaRef::Inline(s) => Option::Some(s),
            SchemaRef::Named(n) => self.resolve_named(n.as_str()),
        }
    }
}

/// Law: registering a name and then registering it again with a
/// structurally equal shape succeeds both times, with the same named
/// reference and the same registry afterward; registering the same name a
/// third time with a structurally different shape is a conflict. The
/// reference each successful call returns is `SchemaRef::Named` of the
/// registered name, by [`SchemaRegistry::register`]'s contract.
pub proof fn lemma_register_round_trip(
    entries: Seq<(String, Schema)>,
    n1: String,
    s1: Schema,
    n2: String,
    s2: Schema,
    n3: String,
    s3: Schema,
)
    requires
        registry_wf(entries),
        !has_name(entries, n1@),
        n2@ == n1@,
        schema_matches(s1, s2),
        n3@ == n1@,
        !schema_matches(s1, s3),
    ensures
        !conflicts_with(entries, n1@, s1),
        !conflicts_with(entries_after(entries, n1, s1), n2@, s2),
        entries_after(entries_after(entries, n1, s1), n2, s2) == entries_after(entries, n1, s1),
        conflicts_with(entries_after(entries, n1, s1), n3@, s3),
{
    let e1 = entries_after(entries, n1, s1);
    assert(e1 == entries.push((n1, s1)));
    let last = e1.len() - 1;
    assert(e1[last] == (n1, s1));
    assert forall|i: int|
        0 <= i < e1.len() && (#[trigger] e1[i]).0@ == n2@ implies schema_matches(e1[i].1, s2) by {
        if i < last {
            assert(e1[i] == entries[i]);
            assert(!has_name(entries, n1@));
            assert(entries[i].0@ != n1@);
        } else {
            assert(e1[i].1 == s1);
        }
    }
    assert(has_name(e1, n2@)) by {
        assert(e1[last].0@ == n2@);
    }
    assert(conflicts_with(e1, n3@, s3)) by {
        assert(e1[last].0@ == n3@ && !schema_matches(e1[last].1, s3));
    }
}

} // verus!

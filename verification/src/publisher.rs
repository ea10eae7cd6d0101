//! The value publisher: the catalog of known runtime fields, and the
//! flattening of a runtime value batch into a sparse field-to-value
//! document.

use vstd::prelude::*;

use crate::descriptor::{VarHeader, VarView};

verus! {

/// The catalog of variable headers known for the current link, keyed by
/// field name.
pub struct VarCatalog {
    pub entries: Vec<VarHeader>,
}

impl View for VarCatalog {
    type V = Seq<VarView>;

    open spec fn view(&self) -> Seq<VarView> {
        self.entries@.map_values(|v: VarHeader| v@)
    }
}

/// The first catalog entry carrying the given field name.
pub open spec fn spec_lookup(s: Seq<VarView>, name: Seq<char>) -> Option<VarView>
    decreases s.len(),
{
    if s.len() == 0 {
        None
    } else if s[0].name == name {
        Some(s[0])
    } else {
        spec_lookup(s.drop_first(), name)
    }
}

/// Looking up from entry `i` on looks at entry `i` first.
proof fn lemma_lookup_skip(s: Seq<VarView>, name: Seq<char>, i: int)
    requires
        0 <= i < s.len(),
    ensures
        spec_lookup(s.skip(i), name) == if s[i].name == name {
            Some(s[i])
        } else {
            spec_lookup(s.skip(i + 1), name)
        },
{
    assert(s.skip(i)[0] == s[i]);
    assert(s.skip(i).drop_first() =~= s.skip(i + 1));
}

impl VarCatalog {
    /// An empty catalog.
    pub fn new() -> (r: VarCatalog)
        ensures
            r@ == Seq::<VarView>::empty(),
    {
        let r = VarCatalog { entries: Vec::new() };
        proof {
            assert(r@ =~= Seq::<VarView>::empty());
        }
        r
    }

    /// How many fields the catalog knows.
    pub fn len(&self) -> (r: usize)
        ensures
            r == self@.len(),
    {
        self.entries.len()
    }

    /// Adds one variable header.
    pub fn push(&mut self, var: VarHeader)
        ensures
            final(self)@ == old(self)@.push(var@),
    {
        self.entries.push(var);
        proof {
            assert(self@ =~= old(self)@.push(var@));
        }
    }

    /// The first catalog entry for a field name, if the field is known.
    #[verifier::loop_isolation(false)]
    pub fn get(&self, name: &str) -> (r: Option<&VarHeader>)
        ensures
            match r {
                Some(v) => spec_lookup(self@, name@) == Some(v@),
                None => spec_lookup(self@, name@) is None,
            },
    {
        let wanted = String::from_str(name);
        let n = self.entries.len();
        proof {
            assert(self@.skip(0) =~= self@);
        }
        let mut i: usize = 0;
        while i < n
            invariant
                i <= n,
                n == self@.len(),
                spec_lookup(self@, name@) == spec_lookup(self@.skip(i as int), name@),
            decreases n - i,
        {
            proof {
                lemma_lookup_skip(self@, name@, i as int);
                assert(self@[i as int] == self.entries@[i as int]@);
            }
            if self.entries[i].name.eq(&wanted) {
                return Some(&self.entries[i]);
            }
            i = i + 1;
        }
        proof {
            assert(self@.skip(n as int) =~= Seq::<VarView>::empty());
        }
        None
    }

    /// Whether the catalog knows a field of this name.
    pub fn knows(&self, name: &str) -> (r: bool)
        ensures
            r == (spec_lookup(self@, name@) is Some),
    {
        self.get(name).is_some()
    }
}

/// One runtime telemetry value, as handed over by the feed boundary. A
/// floating-point sample travels as its raw bit pattern; the boundary
/// converts in both directions.
#[derive(Debug, PartialEq)]
pub enum TelemetryValue {
    Bool(bool),
    Int(i64),
    FloatBits(u64),
    Text(String),
    BoolList(Vec<bool>),
    IntList(Vec<i64>),
    FloatBitsList(Vec<u64>),
}

/// A batch of runtime values produced by one telemetry tick, keyed by field
/// name.
pub struct ValueBatch {
    pub entries: Vec<(String, TelemetryValue)>,
}

impl ValueBatch {
    /// An empty batch.
    pub fn new() -> (r: ValueBatch)
        ensures
            r.entries@ == Seq::<(String, TelemetryValue)>::empty(),
    {
        ValueBatch { entries: Vec::new() }
    }

    /// Adds one extracted value.
    pub fn push(&mut self, name: String, value: TelemetryValue)
        ensures
            final(self).entries@ == old(self).entries@.push((name, value)),
    {
        self.entries.push((name, value));
    }
}

/// The flat document for a value batch: the batch's entries, in order,
/// restricted to the fields the catalog knows. Fields with no extracted
/// value are simply absent, never represented as a null value.
pub open spec fn spec_flatten(
    values: Seq<(String, TelemetryValue)>,
    catalog: Seq<VarView>,
) -> Seq<(String, TelemetryValue)>
    decreases values.len(),
{
    if values.len() == 0 {
        Seq::empty()
    } else {
        let rest = spec_flatten(values.drop_first(), catalog);
        if spec_lookup(catalog, values[0].0@) is Some {
            seq![values[0]] + rest
        } else {
            rest
        }
    }
}

/// Flattening from entry `i` on handles entry `i` first.
proof fn lemma_flatten_skip(
    values: Seq<(String, TelemetryValue)>,
    catalog: Seq<VarView>,
    i: int,
)
    requires
        0 <= i < values.len(),
    ensures
        spec_flatten(values.skip(i), catalog) == if spec_lookup(catalog, values[i].0@) is Some {
            seq![values[i]] + spec_flatten(values.skip(i + 1), catalog)
        } else {
            spec_flatten(values.skip(i + 1), catalog)
        },
{
    assert(values.skip(i)[0] == values[i]);
    assert(values.skip(i).drop_first() =~= values.skip(i + 1));
}

/// Maps a batch of runtime values into the flat key-to-value document for
/// the known fields: every extracted value whose field the catalog knows is
/// kept, in batch order, and nothing else appears.
#[verifier::loop_isolation(false)]
pub fn flatten(values: ValueBatch, known_fields: &VarCatalog) -> (r: Vec<
    (String, TelemetryValue),
>)
    ensures
        r@ == spec_flatten(values.entries@, known_fields@),
{
    let ghost full = values.entries@;
    let mut rest = values.entries;
    let mut out: Vec<(String, TelemetryValue)> = Vec::new();
    proof {
        assert(full.skip(0) =~= full);
    }
    let ghost mut i: int = 0;
    while rest.len() > 0
        invariant
            0 <= i <= full.len(),
            rest@ =~= full.skip(i),
            spec_flatten(full, known_fields@) == out@ + spec_flatten(full.skip(i), known_fields@),
        decreases rest@.len(),
    {
        proof {
            lemma_flatten_skip(full, known_fields@, i);
        }
        let entry = rest.remove(0);
        let keep = known_fields.knows(entry.0.as_str());
        proof {
            assert(entry == full[i]);
            assert(rest@ =~= full.skip(i + 1));
        }
        if keep {
            let ghost prev = out@;
            out.push(entry);
            proof {
                assert(prev + (seq![full[i]] + spec_flatten(full.skip(i + 1), known_fields@))
                    =~= out@ + spec_flatten(full.skip(i + 1), known_fields@));
            }
        }
        proof {
            i = i + 1;
        }
    }
    proof {
        assert(full.skip(full.len() as int) =~= Seq::<(String, TelemetryValue)>::empty());
        assert(out@ =~= spec_flatten(full, known_fields@));
    }
    out
}

/// The flat document is sparse: it never carries a field the catalog does
/// not know, and every entry it carries is one of the batch's own entries.
/// Absence therefore means "no update this tick", never a default value.
pub proof fn lemma_flatten_sparse(
    values: Seq<(String, TelemetryValue)>,
    catalog: Seq<VarView>,
)
    ensures
        forall|k: int|
            0 <= k < spec_flatten(values, catalog).len() ==> {
                &&& spec_lookup(catalog, (#[trigger] spec_flatten(values, catalog)[k]).0@)
                    is Some
                &&& values.contains(spec_flatten(values, catalog)[k])
            },
    decreases values.len(),
{
    if values.len() > 0 {
        lemma_flatten_sparse(values.drop_first(), catalog);
        let whole = spec_flatten(values, catalog);
        let rest = spec_flatten(values.drop_first(), catalog);
        let off: int = if spec_lookup(catalog, values[0].0@) is Some {
            1
        } else {
            0
        };
        assert forall|k: int| 0 <= k < whole.len() implies {
            &&& spec_lookup(catalog, (#[trigger] whole[k]).0@) is Some
            &&& values.contains(whole[k])
        } by {
            if off == 1 && k == 0 {
                assert(whole[0] == values[0]);
                assert(values.contains(values[0])) by {
                    assert(values[0] == values[0]);
                }
            } else {
                assert(whole[k] == rest[k - off]);
                assert(spec_lookup(catalog, rest[k - off].0@) is Some);
                assert(values.drop_first().contains(rest[k - off]));
                let j = choose|j: int|
                    0 <= j < values.drop_first().len() && values.drop_first()[j] == rest[k - off];
                assert(values[j + 1] == whole[k]);
                assert(values.contains(values[j + 1])) by {
                    assert(values[j + 1] == values[j + 1]);
                }
            }
        }
    }
}

} // verus!

//! The Metal Shading Language backend: its configuration model, the
//! ordered override tables, and the compile path that flattens them into
//! native arrays in key order immediately before each compile command.

use vstd::prelude::*;

use crate::compiler;
use crate::engine;
use crate::native;
use crate::spirv;
use crate::ErrorCode;

pub use crate::native::ChromaLocation;
pub use crate::native::ComponentSwizzle;
pub use crate::native::FormatResolution;
pub use crate::native::SamplerAddress;
pub use crate::native::SamplerBorderColor;
pub use crate::native::SamplerCompareFunc;
pub use crate::native::SamplerCoord;
pub use crate::native::SamplerFilter;
pub use crate::native::SamplerMipFilter;
pub use crate::native::SamplerYCbCrModelConversion;
pub use crate::native::SamplerYCbCrRange;
pub use crate::native::ShaderVariableFormat as Format;
pub use crate::native::ShaderVariableRate as Rate;

verus! {

/// The MSL target marker.
#[derive(Debug, Clone)]
pub struct Target;

impl spirv::Target for Target {
    type Data = TargetData;
}

/// The binding index the backend reserves for argument buffers.
pub const ARGUMENT_BUFFER_BINDING: u32 = 0xFFFF_FFFC;

/// The flattened override arrays handed to the compile command, refreshed
/// from the ordered option tables by every set-options call.
pub struct TargetData {
    vertex_attribute_overrides: Vec<native::ShaderInterfaceVariableRecord>,
    resource_binding_overrides: Vec<native::ResourceBindingRecord>,
    const_samplers: Vec<native::ConstSamplerMappingRecord>,
}

/// The ghost value of the flattened override arrays.
#[verifier::ext_equal]
pub ghost struct TargetDataModel {
    pub vertex_attribute_overrides: Seq<native::ShaderInterfaceVariableRecord>,
    pub resource_binding_overrides: Seq<native::ResourceBindingRecord>,
    pub const_samplers: Seq<native::ConstSamplerMappingRecord>,
}

impl View for TargetData {
    type V = TargetDataModel;

    /// The three arrays as sequences.
    closed spec fn view(&self) -> TargetDataModel {
        TargetDataModel {
            vertex_attribute_overrides: self.vertex_attribute_overrides@,
            resource_binding_overrides: self.resource_binding_overrides@,
            const_samplers: self.const_samplers@,
        }
    }
}

/// A key of an ordered override table: totally ordered through a packed
/// integer, so that flattening the table is deterministic.
pub trait OverrideKey {
    /// The packed integer that orders the keys.
    spec fn spec_key(&self) -> u128;

    /// The packed integer that orders the keys.
    fn key(&self) -> (k: u128)
        ensures
            k == self.spec_key(),
    ;
}

/// The entries after inserting a binding: kept sorted by packed key, a
/// new key spliced in and an existing key's value replaced.
pub open spec fn spec_table_insert<K: OverrideKey, V>(s: Seq<(K, V)>, k: K, v: V) -> Seq<(K, V)>
    decreases s.len(),
{
    if s.len() == 0 {
        seq![(k, v)]
    } else if k.spec_key() < s[0].0.spec_key() {
        seq![(k, v)] + s
    } else if k.spec_key() == s[0].0.spec_key() {
        seq![(k, v)] + s.drop_first()
    } else {
        seq![s[0]] + spec_table_insert(s.drop_first(), k, v)
    }
}

/// Whether entries are strictly sorted by packed key.
pub open spec fn spec_table_sorted<K: OverrideKey, V>(s: Seq<(K, V)>) -> bool {
    forall|i: int, j: int|
        0 <= i < j < s.len() ==> (#[trigger] s[i]).0.spec_key() < (#[trigger] s[j]).0.spec_key()
}

/// An ordered override table: entries strictly sorted by packed key, so
/// that two tables built from the same insertions in any order flatten to
/// the same array.
#[derive(Debug)]
pub struct OverrideTable<K, V> where K: OverrideKey {
    entries: Vec<(K, V)>,
}

impl<K, V> View for OverrideTable<K, V> where K: OverrideKey {
    type V = Seq<(K, V)>;

    /// A table is its entry sequence, in key order.
    closed spec fn view(&self) -> Seq<(K, V)> {
        self.entries@
    }
}

impl<K, V> OverrideTable<K, V> where K: OverrideKey {
    #[verifier::type_invariant]
    spec fn wf(self) -> bool {
        spec_table_sorted(self.entries@)
    }

    /// An empty table.
    pub fn new() -> (t: Self)
        ensures
            t@ == Seq::<(K, V)>::empty(),
    {
        OverrideTable { entries: Vec::new() }
    }

    /// How many bindings the table holds.
    pub fn len(&self) -> (n: usize)
        ensures
            n == self@.len(),
    {
        self.entries.len()
    }

    /// The entries in key order.
    pub fn entries(&self) -> (r: &Vec<(K, V)>)
        ensures
            r@ == self@,
    {
        &self.entries
    }


    /// Inserts a binding, replacing the value of an equal key.
    pub fn insert(&mut self, key: K, value: V)
        ensures
            final(self)@ == spec_table_insert(old(self)@, key, value),
    {
        proof {
            use_type_invariant(&*self);
        }
        let n = self.entries.len();
        let k = key.key();
        let mut idx: usize = 0;
        while idx < n && self.entries[idx].0.key() < k
            invariant
                n == self.entries@.len(),
                idx <= n,
                k == key.spec_key(),
                forall|j: int| 0 <= j < idx ==> (#[trigger] self.entries@[j]).0.spec_key() < k,
            decreases n - idx,
        {
            idx = idx + 1;
        }
        proof {
            lemma_table_insert_at(self.entries@, key, value, idx as int);
            lemma_table_insert_sorted(self.entries@, key, value);
        }
        let ghost before = self.entries@;
        let mut entries: Vec<(K, V)> = Vec::new();
        core::mem::swap(&mut entries, &mut self.entries);
        if idx < entries.len() && entries[idx].0.key() == k {
            entries.set(idx, (key, value));
        } else if idx < entries.len() {
            entries.insert(idx, (key, value));
            proof {
                assert(entries@ =~= before.take(idx as int) + seq![(key, value)] + before.skip(
                    idx as int,
                ));
            }
        } else {
            entries.push((key, value));
            proof {
                assert(entries@ =~= before.take(idx as int) + seq![(key, value)] + before.skip(
                    idx as int,
                ));
            }
        }
        proof {
            assert(entries@ == spec_table_insert(before, key, value));
        }
        self.entries = entries;
    }
}

/// Where an insertion lands in a sorted entry sequence: replacing the
/// entry at the first position whose key is not smaller, when the keys
/// are equal, and splicing in front of it otherwise.
proof fn lemma_table_insert_at<K: OverrideKey, V>(s: Seq<(K, V)>, k: K, v: V, idx: int)
    requires
        spec_table_sorted(s),
        0 <= idx <= s.len(),
        forall|j: int| 0 <= j < idx ==> (#[trigger] s[j]).0.spec_key() < k.spec_key(),
        idx < s.len() ==> s[idx].0.spec_key() >= k.spec_key(),
    ensures
        idx < s.len() && s[idx].0.spec_key() == k.spec_key() ==> spec_table_insert(s, k, v)
            == s.update(idx, (k, v)),
        !(idx < s.len() && s[idx].0.spec_key() == k.spec_key()) ==> spec_table_insert(s, k, v)
            == s.take(idx) + seq![(k, v)] + s.skip(idx),
    decreases s.len(),
{
    if s.len() == 0 {
        assert(spec_table_insert(s, k, v) =~= s.take(idx) + seq![(k, v)] + s.skip(idx));
    } else if idx == 0 {
        if s[0].0.spec_key() == k.spec_key() {
            assert(spec_table_insert(s, k, v) =~= s.update(0, (k, v)));
        } else {
            assert(spec_table_insert(s, k, v) =~= s.take(0) + seq![(k, v)] + s.skip(0));
        }
    } else {
        lemma_table_insert_at(s.drop_first(), k, v, idx - 1);
        assert(spec_table_insert(s, k, v) == seq![s[0]] + spec_table_insert(s.drop_first(), k, v));
        if idx < s.len() && s[idx].0.spec_key() == k.spec_key() {
            assert(s.drop_first()[idx - 1] == s[idx]);
            assert(spec_table_insert(s, k, v) =~= s.update(idx, (k, v)));
        } else {
            assert(s.drop_first().take(idx - 1) =~= s.take(idx).drop_first());
            assert(s.drop_first().skip(idx - 1) =~= s.skip(idx));
            assert(spec_table_insert(s, k, v) =~= s.take(idx) + seq![(k, v)] + s.skip(idx));
        }
    }
}

/// Insertion keeps a sorted entry sequence sorted.
proof fn lemma_table_insert_sorted<K: OverrideKey, V>(s: Seq<(K, V)>, k: K, v: V)
    requires
        spec_table_sorted(s),
    ensures
        spec_table_sorted(spec_table_insert(s, k, v)),
    decreases s.len(),
{
    let t = spec_table_insert(s, k, v);
    if s.len() == 0 {
    } else if k.spec_key() < s[0].0.spec_key() {
        assert forall|i: int, j: int| 0 <= i < j < t.len() implies (#[trigger] t[i]).0.spec_key()
            < (#[trigger] t[j]).0.spec_key() by {
            if i > 0 {
                assert(t[i] == s[i - 1]);
                assert(t[j] == s[j - 1]);
            } else {
                assert(t[j] == s[j - 1]);
                if j > 1 {
                    assert(s[0].0.spec_key() < s[j - 1].0.spec_key());
                }
            }
        }
    } else if k.spec_key() == s[0].0.spec_key() {
        assert forall|i: int, j: int| 0 <= i < j < t.len() implies (#[trigger] t[i]).0.spec_key()
            < (#[trigger] t[j]).0.spec_key() by {
            if i > 0 {
                assert(t[i] == s[i]);
                assert(t[j] == s[j]);
            } else {
                assert(t[j] == s[j]);
            }
        }
    } else {
        lemma_table_insert_sorted(s.drop_first(), k, v);
        let rest = spec_table_insert(s.drop_first(), k, v);
        assert forall|i: int, j: int| 0 <= i < j < t.len() implies (#[trigger] t[i]).0.spec_key()
            < (#[trigger] t[j]).0.spec_key() by {
            if i > 0 {
                assert(t[i] == rest[i - 1]);
                assert(t[j] == rest[j - 1]);
            } else {
                assert(t[j] == rest[j - 1]);
                lemma_table_insert_member(s.drop_first(), k, v, j - 1);
            }
        }
    }
}

/// Every entry of an insertion result is either the inserted pair or an
/// entry of the original sequence.
proof fn lemma_table_insert_member<K: OverrideKey, V>(s: Seq<(K, V)>, k: K, v: V, i: int)
    requires
        0 <= i < spec_table_insert(s, k, v).len(),
    ensures
        spec_table_insert(s, k, v)[i] == (k, v) || exists|j: int|
            0 <= j < s.len() && spec_table_insert(s, k, v)[i] == s[j],
    decreases s.len(),
{
    let t = spec_table_insert(s, k, v);
    if s.len() == 0 {
    } else if k.spec_key() < s[0].0.spec_key() {
        if i > 0 {
            assert(t[i] == s[i - 1]);
        }
    } else if k.spec_key() == s[0].0.spec_key() {
        if i > 0 {
            assert(t[i] == s[i]);
        }
    } else {
        if i == 0 {
            assert(t[0] == s[0]);
        } else {
            lemma_table_insert_member(s.drop_first(), k, v, i - 1);
            assert(t[i] == spec_table_insert(s.drop_first(), k, v)[i - 1]);
            if spec_table_insert(s.drop_first(), k, v)[i - 1] != (k, v) {
                let j = choose|j: int|
                    0 <= j < s.drop_first().len() && spec_table_insert(s.drop_first(), k, v)[i - 1]
                        == s.drop_first()[j];
                assert(s.drop_first()[j] == s[j + 1]);
            }
        }
    }
}

/// Inserting two bindings under distinct keys commutes: a table holds the
/// same entries whatever the order its bindings were set, so the
/// flattened native array is deterministic even though the engine's own
/// structure does not sort.
pub proof fn lemma_table_insert_commutes<K: OverrideKey, V>(
    s: Seq<(K, V)>,
    k1: K,
    v1: V,
    k2: K,
    v2: V,
)
    requires
        k1.spec_key() != k2.spec_key(),
    ensures
        spec_table_insert(spec_table_insert(s, k1, v1), k2, v2) == spec_table_insert(
            spec_table_insert(s, k2, v2),
            k1,
            v1,
        ),
    decreases s.len(),
{
    if s.len() == 0 {
        let a = spec_table_insert(spec_table_insert(s, k1, v1), k2, v2);
        let b = spec_table_insert(spec_table_insert(s, k2, v2), k1, v1);
        assert(spec_table_insert(s, k1, v1) =~= seq![(k1, v1)]);
        assert(spec_table_insert(s, k2, v2) =~= seq![(k2, v2)]);
        assert(seq![(k1, v1)][0] == (k1, v1));
        assert(seq![(k2, v2)][0] == (k2, v2));
        assert(seq![(k1, v1)].drop_first() =~= Seq::<(K, V)>::empty());
        assert(seq![(k2, v2)].drop_first() =~= Seq::<(K, V)>::empty());
        assert(spec_table_insert(Seq::<(K, V)>::empty(), k1, v1) =~= seq![(k1, v1)]);
        assert(spec_table_insert(Seq::<(K, V)>::empty(), k2, v2) =~= seq![(k2, v2)]);
        if k1.spec_key() < k2.spec_key() {
            assert(a =~= seq![(k1, v1)] + spec_table_insert(Seq::<(K, V)>::empty(), k2, v2));
            assert(a =~= seq![(k1, v1), (k2, v2)]);
            assert(b =~= seq![(k1, v1)] + seq![(k2, v2)]);
            assert(b =~= seq![(k1, v1), (k2, v2)]);
        } else {
            assert(a =~= seq![(k2, v2)] + seq![(k1, v1)]);
            assert(a =~= seq![(k2, v2), (k1, v1)]);
            assert(b =~= seq![(k2, v2)] + spec_table_insert(Seq::<(K, V)>::empty(), k1, v1));
            assert(b =~= seq![(k2, v2), (k1, v1)]);
        }
    } else if s[0].0.spec_key() < k1.spec_key() && s[0].0.spec_key() < k2.spec_key() {
        let h = s[0];
        let rest = s.drop_first();
        lemma_table_insert_commutes(rest, k1, v1, k2, v2);
        assert((seq![h] + spec_table_insert(rest, k1, v1))[0] == h);
        assert((seq![h] + spec_table_insert(rest, k1, v1)).drop_first() =~= spec_table_insert(
            rest,
            k1,
            v1,
        ));
        assert((seq![h] + spec_table_insert(rest, k2, v2))[0] == h);
        assert((seq![h] + spec_table_insert(rest, k2, v2)).drop_first() =~= spec_table_insert(
            rest,
            k2,
            v2,
        ));
        assert(spec_table_insert(spec_table_insert(s, k1, v1), k2, v2) =~= seq![h]
            + spec_table_insert(spec_table_insert(rest, k1, v1), k2, v2));
        assert(spec_table_insert(spec_table_insert(s, k2, v2), k1, v1) =~= seq![h]
            + spec_table_insert(spec_table_insert(rest, k2, v2), k1, v1));
    } else if k1.spec_key() < k2.spec_key() {
        lemma_table_insert_smaller_first(s, k1, v1, k2, v2);
    } else {
        lemma_table_insert_smaller_first(s, k2, v2, k1, v1);
    }
}

/// The two-insertion result when the smaller of two distinct keys does
/// not land strictly after the head: the smaller entry ends up in front
/// of the larger one, in one sequence, whichever insertion came first.
proof fn lemma_table_insert_smaller_first<K: OverrideKey, V>(
    s: Seq<(K, V)>,
    k1: K,
    v1: V,
    k2: K,
    v2: V,
)
    requires
        s.len() > 0,
        k1.spec_key() < k2.spec_key(),
        k1.spec_key() <= s[0].0.spec_key() || k2.spec_key() <= s[0].0.spec_key(),
    ensures
        spec_table_insert(spec_table_insert(s, k1, v1), k2, v2) == spec_table_insert(
            spec_table_insert(s, k2, v2),
            k1,
            v1,
        ),
{
    let h = s[0];
    let hk = h.0.spec_key();
    let rest = s.drop_first();
    let a = spec_table_insert(spec_table_insert(s, k1, v1), k2, v2);
    let b = spec_table_insert(spec_table_insert(s, k2, v2), k1, v1);
    if k1.spec_key() < hk {
        assert(spec_table_insert(s, k1, v1) =~= seq![(k1, v1)] + s);
        assert((seq![(k1, v1)] + s)[0] == (k1, v1));
        assert((seq![(k1, v1)] + s).drop_first() =~= s);
        if k2.spec_key() < hk {
            assert(spec_table_insert(s, k2, v2) =~= seq![(k2, v2)] + s);
            assert((seq![(k2, v2)] + s)[0] == (k2, v2));
            assert(a =~= seq![(k1, v1)] + spec_table_insert(s, k2, v2));
            assert(b =~= seq![(k1, v1)] + spec_table_insert(s, k2, v2));
        } else if k2.spec_key() == hk {
            assert(spec_table_insert(s, k2, v2) =~= seq![(k2, v2)] + rest);
            assert((seq![(k2, v2)] + rest)[0] == (k2, v2));
            assert(a =~= seq![(k1, v1)] + spec_table_insert(s, k2, v2));
            assert(b =~= seq![(k1, v1)] + spec_table_insert(s, k2, v2));
        } else {
            assert(spec_table_insert(s, k2, v2) =~= seq![h] + spec_table_insert(rest, k2, v2));
            assert((seq![h] + spec_table_insert(rest, k2, v2))[0] == h);
            assert(a =~= seq![(k1, v1)] + spec_table_insert(s, k2, v2));
            assert(b =~= seq![(k1, v1)] + spec_table_insert(s, k2, v2));
        }
    } else if k1.spec_key() == hk {
        // The larger key is strictly beyond the head; replacing the head
        // and splicing the larger entry interleave cleanly.
        assert(spec_table_insert(s, k1, v1) =~= seq![(k1, v1)] + rest);
        assert((seq![(k1, v1)] + rest)[0] == (k1, v1));
        assert((seq![(k1, v1)] + rest).drop_first() =~= rest);
        assert(spec_table_insert(s, k2, v2) =~= seq![h] + spec_table_insert(rest, k2, v2));
        assert((seq![h] + spec_table_insert(rest, k2, v2))[0] == h);
        assert((seq![h] + spec_table_insert(rest, k2, v2)).drop_first() =~= spec_table_insert(
            rest,
            k2,
            v2,
        ));
        assert(a =~= seq![(k1, v1)] + spec_table_insert(rest, k2, v2));
        assert(b =~= seq![(k1, v1)] + spec_table_insert(rest, k2, v2));
    } else {
        // The smaller key lies beyond the head, so the precondition puts
        // the larger one there too: impossible.
        assert(false);
    }
}

/// Location of a vertex attribute to override.
#[derive(Debug, Copy, Clone, Hash, Eq, PartialEq, Ord, PartialOrd, Structural)]
pub struct VertexAttributeLocation(pub u32);

impl OverrideKey for VertexAttributeLocation {
    /// Attribute locations order themselves.
    open spec fn spec_key(&self) -> u128 {
        self.0 as u128
    }

    fn key(&self) -> u128 {
        self.0 as u128
    }
}

/// Vertex attribute description for overriding.
#[derive(Debug, Clone, Hash, Eq, PartialEq)]
pub struct VertexAttribute {
    pub buffer_id: u32,
    pub format: Format,
    pub rate: Rate,
    pub built_in: Option<spirv::BuiltIn>,
    pub vecsize: u32,
}

/// Location of a resource binding to override.
#[derive(Debug, Copy, Clone, Hash, Eq, PartialEq, Ord, PartialOrd, Structural)]
pub struct ResourceBindingLocation {
    pub stage: spirv::ExecutionModel,
    pub desc_set: u32,
    pub binding: u32,
}

impl OverrideKey for ResourceBindingLocation {
    /// Stage first, then descriptor set, then binding.
    open spec fn spec_key(&self) -> u128 {
        (native::spec_execution_model_number(self.stage) * 0x1_0000_0000_0000_0000
            + self.desc_set * 0x1_0000_0000 + self.binding) as u128
    }

    fn key(&self) -> u128 {
        native::execution_model_number(self.stage) as u128 * 0x1_0000_0000_0000_0000
            + self.desc_set as u128 * 0x1_0000_0000 + self.binding as u128
    }
}

/// Resource binding description for overriding.
#[derive(Debug, Clone, Hash, Eq, PartialEq)]
pub struct ResourceBinding {
    pub base_type: spirv::BaseType,
    pub buffer_id: u32,
    pub texture_id: u32,
    pub sampler_id: u32,
    pub count: u32,
}

/// Location of a sampler binding to override.
#[derive(Debug, Copy, Clone, Hash, Eq, PartialEq, Ord, PartialOrd, Structural)]
pub struct SamplerLocation {
    pub desc_set: u32,
    pub binding: u32,
}

impl OverrideKey for SamplerLocation {
    /// Descriptor set first, then binding.
    open spec fn spec_key(&self) -> u128 {
        (self.desc_set * 0x1_0000_0000 + self.binding) as u128
    }

    fn key(&self) -> u128 {
        self.desc_set as u128 * 0x1_0000_0000 + self.binding as u128
    }
}

/// A fixed-point level-of-detail value in units of one sixteenth, in the
/// range from zero to 255/16.
#[derive(Debug, Clone, Copy, Hash, Eq, PartialEq, Structural)]
pub struct LodBase16(u8);

impl View for LodBase16 {
    type V = u8;

    /// The raw count of sixteenths.
    closed spec fn view(&self) -> u8 {
        self.0
    }
}

/// The count of sixteenths that a binary32 value converts to: the value
/// times sixteen, rounded toward zero and saturated to the range; an
/// undefined value reads as zero.
pub open spec fn spec_lod_of_bits(bits: u32) -> u8 {
    let sign = bits / 0x8000_0000;
    let exp = (bits / 0x80_0000) % 0x100;
    let frac = bits % 0x80_0000;
    if exp == 0xFF && frac != 0 {
        0
    } else if sign == 1 {
        0
    } else if exp == 0xFF {
        255
    } else if exp < 123 {
        0
    } else if exp >= 131 {
        255
    } else {
        let m = frac + 0x80_0000;
        if exp == 123 {
            (m / 0x80_0000) as u8
        } else if exp == 124 {
            (m / 0x40_0000) as u8
        } else if exp == 125 {
            (m / 0x20_0000) as u8
        } else if exp == 126 {
            (m / 0x10_0000) as u8
        } else if exp == 127 {
            (m / 0x8_0000) as u8
        } else if exp == 128 {
            (m / 0x4_0000) as u8
        } else if exp == 129 {
            (m / 0x2_0000) as u8
        } else {
            (m / 0x1_0000) as u8
        }
    }
}

/// The bit pattern of the binary32 value a count of sixteenths converts
/// back to, exactly.
pub open spec fn spec_lod_bits_of(v: u8) -> u32 {
    if v == 0 {
        0
    } else if v >= 128 {
        (130 * 0x80_0000 + (v - 128) * 0x1_0000) as u32
    } else if v >= 64 {
        (129 * 0x80_0000 + (v - 64) * 0x2_0000) as u32
    } else if v >= 32 {
        (128 * 0x80_0000 + (v - 32) * 0x4_0000) as u32
    } else if v >= 16 {
        (127 * 0x80_0000 + (v - 16) * 0x8_0000) as u32
    } else if v >= 8 {
        (126 * 0x80_0000 + (v - 8) * 0x10_0000) as u32
    } else if v >= 4 {
        (125 * 0x80_0000 + (v - 4) * 0x20_0000) as u32
    } else if v >= 2 {
        (124 * 0x80_0000 + (v - 2) * 0x40_0000) as u32
    } else {
        (123 * 0x80_0000) as u32
    }
}

impl LodBase16 {
    /// The lower bound sentinel: zero sixteenths, "no clamp".
    pub fn zero() -> (r: Self)
        ensures
            r@ == 0,
    {
        LodBase16(0)
    }

    /// The upper bound sentinel: 255 sixteenths, the largest clamp.
    pub fn max() -> (r: Self)
        ensures
            r@ == 255,
    {
        LodBase16(255)
    }

    /// The clamp value of a binary32 bit pattern: the value times
    /// sixteen, rounded toward zero and saturated to the range.
    pub fn from_f32_bits(bits: u32) -> (r: LodBase16)
        ensures
            r@ == spec_lod_of_bits(bits),
    {
        let sign = bits / 0x8000_0000;
        let exp = (bits / 0x80_0000) % 0x100;
        let frac = bits % 0x80_0000;
        if exp == 0xFF && frac != 0 {
            LodBase16(0)
        } else if sign == 1 {
            LodBase16(0)
        } else if exp == 0xFF {
            LodBase16(255)
        } else if exp < 123 {
            LodBase16(0)
        } else if exp >= 131 {
            LodBase16(255)
        } else {
            let m = frac + 0x80_0000;
            if exp == 123 {
                LodBase16((m / 0x80_0000) as u8)
            } else if exp == 124 {
                LodBase16((m / 0x40_0000) as u8)
            } else if exp == 125 {
                LodBase16((m / 0x20_0000) as u8)
            } else if exp == 126 {
                LodBase16((m / 0x10_0000) as u8)
            } else if exp == 127 {
                LodBase16((m / 0x8_0000) as u8)
            } else if exp == 128 {
                LodBase16((m / 0x4_0000) as u8)
            } else if exp == 129 {
                LodBase16((m / 0x2_0000) as u8)
            } else {
                LodBase16((m / 0x1_0000) as u8)
            }
        }
    }

    /// The bit pattern of the binary32 value this clamp converts back to,
    /// exactly: the count of sixteenths divided by sixteen.
    pub fn to_f32_bits(self) -> (r: u32)
        ensures
            r == spec_lod_bits_of(self@),
    {
        let v = self.0;
        if v == 0 {
            0
        } else if v >= 128 {
            130 * 0x80_0000 + (v as u32 - 128) * 0x1_0000
        } else if v >= 64 {
            129 * 0x80_0000 + (v as u32 - 64) * 0x2_0000
        } else if v >= 32 {
            128 * 0x80_0000 + (v as u32 - 32) * 0x4_0000
        } else if v >= 16 {
            127 * 0x80_0000 + (v as u32 - 16) * 0x8_0000
        } else if v >= 8 {
            126 * 0x80_0000 + (v as u32 - 8) * 0x10_0000
        } else if v >= 4 {
            125 * 0x80_0000 + (v as u32 - 4) * 0x20_0000
        } else if v >= 2 {
            124 * 0x80_0000 + (v as u32 - 2) * 0x40_0000
        } else {
            123 * 0x80_0000
        }
    }

    /// The raw count of sixteenths.
    pub fn bits(self) -> (r: u8)
        ensures
            r == self@,
    {
        self.0
    }

    /// The clamp holding a raw count of sixteenths.
    pub fn from_bits(bits: u8) -> (r: LodBase16)
        ensures
            r@ == bits,
    {
        LodBase16(bits)
    }
}

/// Data fully defining a constant sampler.
#[derive(Debug, Clone, Hash, Eq, PartialEq)]
pub struct SamplerData {
    pub coord: SamplerCoord,
    pub min_filter: SamplerFilter,
    pub mag_filter: SamplerFilter,
    pub mip_filter: SamplerMipFilter,
    pub s_address: SamplerAddress,
    pub t_address: SamplerAddress,
    pub r_address: SamplerAddress,
    pub compare_func: SamplerCompareFunc,
    pub border_color: SamplerBorderColor,
    pub lod_clamp_min: LodBase16,
    pub lod_clamp_max: LodBase16,
    pub max_anisotropy: i32,
    pub planes: u32,
    pub resolution: FormatResolution,
    pub chroma_filter: SamplerFilter,
    pub x_chroma_offset: ChromaLocation,
    pub y_chroma_offset: ChromaLocation,
    pub swizzle: [ComponentSwizzle; 4],
    pub ycbcr_conversion_enable: bool,
    pub ycbcr_model: SamplerYCbCrModelConversion,
    pub ycbcr_range: SamplerYCbCrRange,
    pub bpc: u32,
}

/// A MSL shader platform.
#[allow(non_camel_case_types)]
#[derive(Copy, Clone, Debug, Hash, Eq, PartialEq, Structural)]
pub enum Platform {
    iOS,
    macOS,
}

/// The number the backend configuration uses for a platform.
pub open spec fn spec_platform_raw(p: Platform) -> u8 {
    match p {
        Platform::iOS => 0,
        Platform::macOS => 1,
    }
}

fn platform_as_raw(p: Platform) -> (r: u8)
    ensures
        r == spec_platform_raw(p),
{
    match p {
        Platform::iOS => 0,
        Platform::macOS => 1,
    }
}

/// A MSL shader model version.
#[derive(Copy, Clone, Debug, Hash, Eq, PartialEq, Structural)]
#[non_exhaustive]
pub enum Version {
    V1_0,
    V1_1,
    V1_2,
    V2_0,
    V2_1,
    V2_2,
    V2_3,
}

/// The number the backend configuration uses for a version.
pub open spec fn spec_version_raw(v: Version) -> u32 {
    match v {
        Version::V1_0 => 10000,
        Version::V1_1 => 10100,
        Version::V1_2 => 10200,
        Version::V2_0 => 20000,
        Version::V2_1 => 20100,
        Version::V2_2 => 20200,
        Version::V2_3 => 20300,
    }
}

impl Version {
    /// The number the backend configuration uses for this version.
    pub fn as_raw(self) -> (r: u32)
        ensures
            r == spec_version_raw(self),
    {
        match self {
            Version::V1_0 => 10000,
            Version::V1_1 => 10100,
            Version::V1_2 => 10200,
            Version::V2_0 => 20000,
            Version::V2_1 => 20100,
            Version::V2_2 => 20200,
            Version::V2_3 => 20300,
        }
    }
}

/// Vertex-stage transform options.
#[derive(Debug, Clone, Hash, Eq, PartialEq, Structural)]
pub struct CompilerVertexOptions {
    pub invert_y: bool,
    pub transform_clip_space: bool,
}

impl Default for CompilerVertexOptions {
    /// Both transforms off.
    fn default() -> (r: CompilerVertexOptions)
        ensures
            r == (CompilerVertexOptions { invert_y: false, transform_clip_space: false }),
    {
        CompilerVertexOptions { invert_y: false, transform_clip_space: false }
    }
}

/// MSL compiler options.
#[non_exhaustive]
#[derive(Debug)]
pub struct CompilerOptions {
    /// The target platform.
    pub platform: Platform,
    /// The target MSL version.
    pub version: Version,
    /// Vertex compiler options.
    pub vertex: CompilerVertexOptions,
    /// The buffer index to use for swizzle.
    pub swizzle_buffer_index: u32,
    /// The buffer index to use for indirect params.
    pub indirect_params_buffer_index: u32,
    /// The buffer index to use for output.
    pub output_buffer_index: u32,
    /// The buffer index to use for patch output.
    pub patch_output_buffer_index: u32,
    /// The buffer index to use for tessellation factor.
    pub tessellation_factor_buffer_index: u32,
    /// The buffer index to use for buffer size.
    pub buffer_size_buffer_index: u32,
    /// Whether the built-in point size should be enabled.
    pub enable_point_size_builtin: bool,
    /// Whether rasterization should be enabled.  The backend's own record
    /// reads this with the opposite polarity; the inversion happens at the
    /// boundary.
    pub enable_rasterization: bool,
    /// Whether to capture output to buffer.
    pub capture_output_to_buffer: bool,
    /// Whether to swizzle texture samples.
    pub swizzle_texture_samples: bool,
    /// Whether to place the origin of tessellation domain shaders in the
    /// lower left.
    pub tessellation_domain_origin_lower_left: bool,
    /// Whether to enable use of argument buffers.
    pub enable_argument_buffers: bool,
    /// Whether to pad fragment output to have at least the number of
    /// components as the render pass.
    pub pad_fragment_output_components: bool,
    /// MSL resource binding overrides, in key order.
    pub resource_binding_overrides: OverrideTable<ResourceBindingLocation, ResourceBinding>,
    /// MSL vertex attribute overrides, in key order.
    pub vertex_attribute_overrides: OverrideTable<VertexAttributeLocation, VertexAttribute>,
    /// MSL constant sampler mappings, in key order.
    pub const_samplers: OverrideTable<SamplerLocation, SamplerData>,
    /// Whether to force native arrays.
    pub force_native_arrays: bool,
    /// Whether to force all uninitialized variables to be initialized to
    /// zero.
    pub force_zero_initialized_variables: bool,
    /// Whether to force always emit resources which are part of argument
    /// buffers.
    pub force_active_argument_buffer_resources: bool,
    /// The name and execution model of the entry point to use.  If no
    /// entry point is specified, then the first entry point found will be
    /// used.
    pub entry_point: Option<(String, spirv::ExecutionModel)>,
}

impl Default for CompilerOptions {
    /// The backend's default configuration: a macOS 1.2 target with the
    /// reserved buffer indices counting down from thirty, point size and
    /// rasterization on, everything else off and every table empty.
    fn default() -> (r: CompilerOptions)
        ensures
            r.platform == Platform::macOS,
            r.version == Version::V1_2,
            r.vertex == (CompilerVertexOptions { invert_y: false, transform_clip_space: false }),
            r.swizzle_buffer_index == 30,
            r.indirect_params_buffer_index == 29,
            r.output_buffer_index == 28,
            r.patch_output_buffer_index == 27,
            r.tessellation_factor_buffer_index == 26,
            r.buffer_size_buffer_index == 25,
            r.enable_point_size_builtin,
            r.enable_rasterization,
            !r.capture_output_to_buffer,
            !r.swizzle_texture_samples,
            !r.tessellation_domain_origin_lower_left,
            !r.enable_argument_buffers,
            !r.pad_fragment_output_components,
            r.resource_binding_overrides@ == Seq::<
                (ResourceBindingLocation, ResourceBinding),
            >::empty(),
            r.vertex_attribute_overrides@ == Seq::<
                (VertexAttributeLocation, VertexAttribute),
            >::empty(),
            r.const_samplers@ == Seq::<(SamplerLocation, SamplerData)>::empty(),
            !r.force_native_arrays,
            !r.force_zero_initialized_variables,
            !r.force_active_argument_buffer_resources,
            r.entry_point is None,
    {
        CompilerOptions {
            platform: Platform::macOS,
            version: Version::V1_2,
            vertex: Default::default(),
            swizzle_buffer_index: 30,
            indirect_params_buffer_index: 29,
            output_buffer_index: 28,
            patch_output_buffer_index: 27,
            tessellation_factor_buffer_index: 26,
            buffer_size_buffer_index: 25,
            enable_point_size_builtin: true,
            enable_rasterization: true,
            capture_output_to_buffer: false,
            swizzle_texture_samples: false,
            tessellation_domain_origin_lower_left: false,
            enable_argument_buffers: false,
            pad_fragment_output_components: false,
            resource_binding_overrides: OverrideTable::new(),
            vertex_attribute_overrides: OverrideTable::new(),
            const_samplers: OverrideTable::new(),
            force_native_arrays: false,
            force_zero_initialized_variables: false,
            force_active_argument_buffer_resources: false,
            entry_point: None,
        }
    }
}

use vstd::slice::slice_to_vec;
use vstd::utf8::decode_utf8;
use vstd::utf8::encode_utf8;
use vstd::utf8::valid_utf8;
use crate::compiler::CompilerModel;
use crate::engine::CompilerInstance;
use crate::engine::InstanceModel;

/// The native configuration record that a set of options translates to,
/// field for field; the public "rasterization enabled" bit surfaces with
/// the opposite polarity on the native side.
pub open spec fn spec_options_record(o: CompilerOptions) -> native::MslOptionsRecord {
    native::MslOptionsRecord {
        vertex_invert_y: o.vertex.invert_y,
        vertex_transform_clip_space: o.vertex.transform_clip_space,
        platform: spec_platform_raw(o.platform),
        version: spec_version_raw(o.version),
        enable_point_size_builtin: o.enable_point_size_builtin,
        disable_rasterization: !o.enable_rasterization,
        swizzle_buffer_index: o.swizzle_buffer_index,
        indirect_params_buffer_index: o.indirect_params_buffer_index,
        shader_output_buffer_index: o.output_buffer_index,
        shader_patch_output_buffer_index: o.patch_output_buffer_index,
        shader_tess_factor_buffer_index: o.tessellation_factor_buffer_index,
        buffer_size_buffer_index: o.buffer_size_buffer_index,
        capture_output_to_buffer: o.capture_output_to_buffer,
        swizzle_texture_samples: o.swizzle_texture_samples,
        tess_domain_origin_lower_left: o.tessellation_domain_origin_lower_left,
        argument_buffers: o.enable_argument_buffers,
        pad_fragment_output_components: o.pad_fragment_output_components,
        force_native_arrays: o.force_native_arrays,
        force_zero_initialized_variables: o.force_zero_initialized_variables,
        force_active_argument_buffer_resources: o.force_active_argument_buffer_resources,
    }
}

/// The native array element a resource binding override flattens to: the
/// location fields and the binding fields side by side.
pub open spec fn spec_resource_binding_record(
    loc: ResourceBindingLocation,
    res: ResourceBinding,
) -> native::ResourceBindingRecord {
    native::ResourceBindingRecord {
        stage: loc.stage,
        basetype: res.base_type,
        desc_set: loc.desc_set,
        binding: loc.binding,
        msl_buffer: res.buffer_id,
        msl_texture: res.texture_id,
        msl_sampler: res.sampler_id,
        count: res.count,
    }
}

/// The native array element a vertex attribute override flattens to; an
/// absent built-in becomes the sentinel.
pub open spec fn spec_interface_variable_record(
    loc: VertexAttributeLocation,
    v: VertexAttribute,
) -> native::ShaderInterfaceVariableRecord {
    native::ShaderInterfaceVariableRecord {
        location: loc.0,
        component: 0,
        format: v.format,
        builtin: spirv::spec_built_in_as_raw(v.built_in),
        vecsize: v.vecsize,
        rate: v.rate,
    }
}

/// The native array element a constant sampler flattens to.  The three
/// enable flags are derived here, exactly once: comparison whenever the
/// compare function is not "always", LOD clamping whenever either bound
/// leaves its sentinel, anisotropy whenever the level is not zero.
pub open spec fn spec_sampler_record(
    loc: SamplerLocation,
    d: SamplerData,
) -> native::ConstSamplerMappingRecord {
    native::ConstSamplerMappingRecord {
        desc_set: loc.desc_set,
        binding: loc.binding,
        sampler: native::ConstexprSamplerRecord {
            coord: d.coord,
            min_filter: d.min_filter,
            mag_filter: d.mag_filter,
            mip_filter: d.mip_filter,
            s_address: d.s_address,
            t_address: d.t_address,
            r_address: d.r_address,
            compare_func: d.compare_func,
            border_color: d.border_color,
            lod_clamp_min: d.lod_clamp_min@,
            lod_clamp_max: d.lod_clamp_max@,
            max_anisotropy: d.max_anisotropy,
            compare_enable: d.compare_func != SamplerCompareFunc::Always,
            lod_clamp_enable: d.lod_clamp_min@ != 0 || d.lod_clamp_max@ != 255,
            anisotropy_enable: d.max_anisotropy != 0,
            planes: d.planes,
            resolution: d.resolution,
            chroma_filter: d.chroma_filter,
            x_chroma_offset: d.x_chroma_offset,
            y_chroma_offset: d.y_chroma_offset,
            swizzle: d.swizzle,
            ycbcr_conversion_enable: d.ycbcr_conversion_enable,
            ycbcr_model: d.ycbcr_model,
            ycbcr_range: d.ycbcr_range,
            bpc: d.bpc,
        },
    }
}

/// The flattened resource binding array of an override table, in key
/// order.
pub open spec fn spec_flatten_resource_bindings(
    es: Seq<(ResourceBindingLocation, ResourceBinding)>,
) -> Seq<native::ResourceBindingRecord> {
    es.map_values(
        |e: (ResourceBindingLocation, ResourceBinding)| spec_resource_binding_record(e.0, e.1),
    )
}

/// The flattened interface variable array of an override table, in key
/// order.
pub open spec fn spec_flatten_vertex_attributes(
    es: Seq<(VertexAttributeLocation, VertexAttribute)>,
) -> Seq<native::ShaderInterfaceVariableRecord> {
    es.map_values(
        |e: (VertexAttributeLocation, VertexAttribute)| spec_interface_variable_record(e.0, e.1),
    )
}

/// The flattened constant sampler array of an override table, in key
/// order.
pub open spec fn spec_flatten_const_samplers(es: Seq<(SamplerLocation, SamplerData)>) -> Seq<
    native::ConstSamplerMappingRecord,
> {
    es.map_values(|e: (SamplerLocation, SamplerData)| spec_sampler_record(e.0, e.1))
}

fn flatten_resource_bindings(
    t: &OverrideTable<ResourceBindingLocation, ResourceBinding>,
) -> (r: Vec<native::ResourceBindingRecord>)
    ensures
        r@ == spec_flatten_resource_bindings(t@),
{
    let es = t.entries();
    let n = es.len();
    let mut out: Vec<native::ResourceBindingRecord> = Vec::new();
    for i in 0..n
        invariant
            n == es@.len(),
            es@ == t@,
            out@.len() == i,
            forall|j: int|
                0 <= j < i ==> out@[j] == spec_resource_binding_record(
                    (#[trigger] es@[j]).0,
                    es@[j].1,
                ),
    {
        let loc = &es[i].0;
        let res = &es[i].1;
        out.push(
            native::ResourceBindingRecord {
                stage: loc.stage,
                basetype: res.base_type,
                desc_set: loc.desc_set,
                binding: loc.binding,
                msl_buffer: res.buffer_id,
                msl_texture: res.texture_id,
                msl_sampler: res.sampler_id,
                count: res.count,
            },
        );
    }
    proof {
        assert(out@ =~= spec_flatten_resource_bindings(t@));
    }
    out
}

fn flatten_vertex_attributes(
    t: &OverrideTable<VertexAttributeLocation, VertexAttribute>,
) -> (r: Vec<native::ShaderInterfaceVariableRecord>)
    ensures
        r@ == spec_flatten_vertex_attributes(t@),
{
    let es = t.entries();
    let n = es.len();
    let mut out: Vec<native::ShaderInterfaceVariableRecord> = Vec::new();
    for i in 0..n
        invariant
            n == es@.len(),
            es@ == t@,
            out@.len() == i,
            forall|j: int|
                0 <= j < i ==> out@[j] == spec_interface_variable_record(
                    (#[trigger] es@[j]).0,
                    es@[j].1,
                ),
    {
        let loc = &es[i].0;
        let vat = &es[i].1;
        out.push(
            native::ShaderInterfaceVariableRecord {
                location: loc.0,
                component: 0,
                format: vat.format,
                builtin: spirv::built_in_as_raw(vat.built_in),
                vecsize: vat.vecsize,
                rate: vat.rate,
            },
        );
    }
    proof {
        assert(out@ =~= spec_flatten_vertex_attributes(t@));
    }
    out
}

#[verifier::rlimit(50)]
fn flatten_const_samplers(t: &OverrideTable<SamplerLocation, SamplerData>) -> (r: Vec<
    native::ConstSamplerMappingRecord,
>)
    ensures
        r@ == spec_flatten_const_samplers(t@),
{
    let es = t.entries();
    let n = es.len();
    let mut out: Vec<native::ConstSamplerMappingRecord> = Vec::new();
    for i in 0..n
        invariant
            n == es@.len(),
            es@ == t@,
            out@.len() == i,
            forall|j: int|
                0 <= j < i ==> out@[j] == spec_sampler_record((#[trigger] es@[j]).0, es@[j].1),
    {
        let loc = &es[i].0;
        let d = &es[i].1;
        out.push(
            native::ConstSamplerMappingRecord {
                desc_set: loc.desc_set,
                binding: loc.binding,
                sampler: native::ConstexprSamplerRecord {
                    coord: d.coord,
                    min_filter: d.min_filter,
                    mag_filter: d.mag_filter,
                    mip_filter: d.mip_filter,
                    s_address: d.s_address,
                    t_address: d.t_address,
                    r_address: d.r_address,
                    compare_func: d.compare_func,
                    border_color: d.border_color,
                    lod_clamp_min: d.lod_clamp_min.bits(),
                    lod_clamp_max: d.lod_clamp_max.bits(),
                    max_anisotropy: d.max_anisotropy,
                    compare_enable: !(d.compare_func == SamplerCompareFunc::Always),
                    lod_clamp_enable: d.lod_clamp_min.bits() != 0 || d.lod_clamp_max.bits() != 255,
                    anisotropy_enable: d.max_anisotropy != 0,
                    planes: d.planes,
                    resolution: d.resolution,
                    chroma_filter: d.chroma_filter,
                    x_chroma_offset: d.x_chroma_offset,
                    y_chroma_offset: d.y_chroma_offset,
                    swizzle: d.swizzle,
                    ycbcr_conversion_enable: d.ycbcr_conversion_enable,
                    ycbcr_model: d.ycbcr_model,
                    ycbcr_range: d.ycbcr_range,
                    bpc: d.bpc,
                },
            },
        );
    }
    proof {
        assert(out@ =~= spec_flatten_const_samplers(t@));
    }
    out
}

impl spirv::Parse<Target> for spirv::Ast<Target> {
    fn parse(module: &spirv::Module) -> Result<Self, ErrorCode> {
        spirv::Ast::<Target>::parse(module)
    }
}

impl spirv::Compile<Target> for spirv::Ast<Target> {
    type CompilerOptions = CompilerOptions;

    /// Set MSL compiler specific compilation settings.
    fn set_compiler_options(&mut self, options: &CompilerOptions) -> Result<(), ErrorCode> {
        spirv::Ast::<Target>::set_compiler_options(self, options)
    }

    /// Generate MSL shader source from the parsed module.
    fn compile(&mut self) -> Result<String, ErrorCode> {
        spirv::Ast::<Target>::compile(self)
    }
}

impl spirv::Ast<Target> {
    /// Parses a module into an `Ast`: the engine validates the header and
    /// the instruction stream and extracts the entry points, and the
    /// handle starts in the parsed state with empty override arrays.
    pub fn parse(module: &spirv::Module) -> (r: Result<Self, ErrorCode>)
        ensures
            match r {
                Ok(ast) => {
                    &&& engine::spec_module_ok(module@)
                    &&& !ast@.has_been_compiled
                    &&& Some(ast@.instance.entry_points) == engine::spec_scan_entry_points(
                        module@,
                        5,
                    )
                    &&& ast@.instance == (InstanceModel {
                        live: 0,
                        entry_points: ast@.instance.entry_points,
                        ..CompilerInstance::spec_empty_model()
                    })
                    &&& ast@.target_data@ == (TargetDataModel {
                        vertex_attribute_overrides: Seq::empty(),
                        resource_binding_overrides: Seq::empty(),
                        const_samplers: Seq::empty(),
                    })
                },
                Err(e) => {
                    &&& !engine::spec_module_ok(module@)
                    &&& e matches ErrorCode::CompilationError(m) && m@ == "invalid SPIR-V module"@
                },
            },
    {
        match CompilerInstance::create_from_words(module.words()) {
            Ok(instance) => Ok(
                spirv::Ast {
                    compiler: compiler::Compiler::bind(
                        instance,
                        TargetData {
                            vertex_attribute_overrides: Vec::new(),
                            resource_binding_overrides: Vec::new(),
                            const_samplers: Vec::new(),
                        },
                    ),
                    target_type: core::marker::PhantomData,
                },
            ),
            Err(m) => Err(ErrorCode::CompilationError(m)),
        }
    }

    /// Wraps an already-built engine instance, typically one seeded from
    /// explicit reflection tables by an instrumented test harness.  The
    /// handle starts in the parsed state with empty override arrays.
    pub fn from_instance(instance: CompilerInstance) -> (r: Self)
        requires
            instance@.live == 0,
            engine::tables_wf(instance@),
        ensures
            r@.instance == instance@,
            !r@.has_been_compiled,
            r@.target_data@ == (TargetDataModel {
                vertex_attribute_overrides: Seq::empty(),
                resource_binding_overrides: Seq::empty(),
                const_samplers: Seq::empty(),
            }),
    {
        spirv::Ast {
            compiler: compiler::Compiler::bind(
                instance,
                TargetData {
                    vertex_attribute_overrides: Vec::new(),
                    resource_binding_overrides: Vec::new(),
                    const_samplers: Vec::new(),
                },
            ),
            target_type: core::marker::PhantomData,
        }
    }

    /// Sets compile options: selects the requested entry point first if
    /// one is named, translates every scalar and boolean option into the
    /// native configuration record (inverting the rasterization bit's
    /// polarity), and re-flattens the three ordered override tables into
    /// native arrays in key order.
    #[verifier::rlimit(100)]
    pub fn set_compiler_options(&mut self, options: &CompilerOptions) -> (r: Result<
        (),
        ErrorCode,
    >)
        ensures
            (options.entry_point matches Some(ep) && compiler::has_interior_nul(ep.0@)) ==> r
                == Err::<(), ErrorCode>(ErrorCode::Unhandled) && final(self)@ == old(self)@,
            (options.entry_point matches Some(ep) && !compiler::has_interior_nul(ep.0@)
                && !engine::spec_has_entry_point(
                old(self)@.instance.entry_points,
                encode_utf8(ep.0@),
                ep.1,
            )) ==> (r matches Err(ErrorCode::CompilationError(m)) && m@
                == "entry point not found"@) && final(self)@ == (CompilerModel {
                instance: (InstanceModel {
                    latest_error: "entry point not found"@,
                    ..old(self)@.instance
                }),
                ..old(self)@
            }),
            (match options.entry_point {
                Some(ep) => !compiler::has_interior_nul(ep.0@) && engine::spec_has_entry_point(
                    old(self)@.instance.entry_points,
                    encode_utf8(ep.0@),
                    ep.1,
                ),
                None => true,
            }) ==> {
                &&& r is Ok
                &&& final(self)@.instance == (InstanceModel {
                    selected_entry_point: (match options.entry_point {
                        Some(ep) => Some((encode_utf8(ep.0@), ep.1)),
                        None => old(self)@.instance.selected_entry_point,
                    }),
                    msl_options: spec_options_record(*options),
                    ..old(self)@.instance
                })
                &&& final(self)@.target_data@ == (TargetDataModel {
                    vertex_attribute_overrides: spec_flatten_vertex_attributes(
                        options.vertex_attribute_overrides@,
                    ),
                    resource_binding_overrides: spec_flatten_resource_bindings(
                        options.resource_binding_overrides@,
                    ),
                    const_samplers: spec_flatten_const_samplers(options.const_samplers@),
                })
                &&& final(self)@.has_been_compiled == old(self)@.has_been_compiled
            },
    {
        match &options.entry_point {
            Some((name, model)) => {
                match self.compiler.set_entry_point(name.as_str(), *model) {
                    Ok(()) => (),
                    Err(e) => {
                        return Err(e);
                    },
                }
            },
            None => (),
        }
        let raw_options = native::MslOptionsRecord {
            vertex_invert_y: options.vertex.invert_y,
            vertex_transform_clip_space: options.vertex.transform_clip_space,
            platform: platform_as_raw(options.platform),
            version: options.version.as_raw(),
            enable_point_size_builtin: options.enable_point_size_builtin,
            disable_rasterization: !options.enable_rasterization,
            swizzle_buffer_index: options.swizzle_buffer_index,
            indirect_params_buffer_index: options.indirect_params_buffer_index,
            shader_output_buffer_index: options.output_buffer_index,
            shader_patch_output_buffer_index: options.patch_output_buffer_index,
            shader_tess_factor_buffer_index: options.tessellation_factor_buffer_index,
            buffer_size_buffer_index: options.buffer_size_buffer_index,
            capture_output_to_buffer: options.capture_output_to_buffer,
            swizzle_texture_samples: options.swizzle_texture_samples,
            tess_domain_origin_lower_left: options.tessellation_domain_origin_lower_left,
            argument_buffers: options.enable_argument_buffers,
            pad_fragment_output_components: options.pad_fragment_output_components,
            force_native_arrays: options.force_native_arrays,
            force_zero_initialized_variables: options.force_zero_initialized_variables,
            force_active_argument_buffer_resources: options.force_active_argument_buffer_resources,
        };
        match self.compiler.set_msl_options(raw_options) {
            Ok(()) => (),
            Err(e) => {
                return Err(e);
            },
        }
        let flattened = TargetData {
            vertex_attribute_overrides: flatten_vertex_attributes(
                &options.vertex_attribute_overrides,
            ),
            resource_binding_overrides: flatten_resource_bindings(
                &options.resource_binding_overrides,
            ),
            const_samplers: flatten_const_samplers(&options.const_samplers),
        };
        self.compiler.set_target_data(flattened);
        proof {
            assert(self@.instance =~= (InstanceModel {
                selected_entry_point: (match options.entry_point {
                    Some(ep) => Some((encode_utf8(ep.0@), ep.1)),
                    None => old(self)@.instance.selected_entry_point,
                }),
                msl_options: spec_options_record(*options),
                ..old(self)@.instance
            }));
            assert(self@.target_data@ =~= (TargetDataModel {
                vertex_attribute_overrides: spec_flatten_vertex_attributes(
                    options.vertex_attribute_overrides@,
                ),
                resource_binding_overrides: spec_flatten_resource_bindings(
                    options.resource_binding_overrides@,
                ),
                const_samplers: spec_flatten_const_samplers(options.const_samplers@),
            }));
        }
        Ok(())
    }

    /// Compiles the parsed module to MSL source.  The three override
    /// arrays flattened by the most recent set-options call are handed to
    /// the engine by the compile command — compiling does not re-read the
    /// option tables — and the emitted source is copied and the engine's
    /// buffer released.  Only a successful compile marks the handle
    /// compiled.
    pub fn compile(&mut self) -> (r: Result<String, ErrorCode>)
        ensures
            ({
                let out = old(self)@.instance.output_source;
                let received = InstanceModel {
                    received_interface_variables:
                        old(self)@.target_data@.vertex_attribute_overrides,
                    received_resource_bindings: old(self)@.target_data@.resource_binding_overrides,
                    received_const_samplers: old(self)@.target_data@.const_samplers,
                    ..old(self)@.instance
                };
                match r {
                    Ok(s) => valid_utf8(out) && s@ == decode_utf8(out) && final(self)@
                        == (CompilerModel {
                        instance: received,
                        has_been_compiled: true,
                        ..old(self)@
                    }),
                    Err(e) => e == ErrorCode::Unhandled && !valid_utf8(out) && final(self)@
                        == (CompilerModel { instance: received, ..old(self)@ }),
                }
            }),
    {
        self.compile_internal()
    }

    /// Copies the flattened override arrays and issues the compile
    /// command with them.
    fn compile_internal(&mut self) -> (r: Result<String, ErrorCode>)
        ensures
            ({
                let out = old(self)@.instance.output_source;
                let received = InstanceModel {
                    received_interface_variables:
                        old(self)@.target_data@.vertex_attribute_overrides,
                    received_resource_bindings: old(self)@.target_data@.resource_binding_overrides,
                    received_const_samplers: old(self)@.target_data@.const_samplers,
                    ..old(self)@.instance
                };
                match r {
                    Ok(s) => valid_utf8(out) && s@ == decode_utf8(out) && final(self)@
                        == (CompilerModel {
                        instance: received,
                        has_been_compiled: true,
                        ..old(self)@
                    }),
                    Err(e) => e == ErrorCode::Unhandled && !valid_utf8(out) && final(self)@
                        == (CompilerModel { instance: received, ..old(self)@ }),
                }
            }),
    {
        let data = self.compiler.target_data();
        let vat_overrides = slice_to_vec(data.vertex_attribute_overrides.as_slice());
        let res_overrides = slice_to_vec(data.resource_binding_overrides.as_slice());
        let const_samplers = slice_to_vec(data.const_samplers.as_slice());
        self.compiler.compile_msl(&vat_overrides, &res_overrides, &const_samplers)
    }

    /// Whether rasterization is enabled under the stored configuration;
    /// the native record keeps the opposite polarity, inverted back here.
    pub fn is_rasterization_enabled(&self) -> (r: Result<bool, ErrorCode>)
        ensures
            r matches Ok(v) && v == !self@.instance.msl_options.disable_rasterization,
    {
        match self.compiler.msl_rasterization_disabled() {
            Ok(disabled) => Ok(!disabled),
            Err(e) => Err(e),
        }
    }

    /// The resource binding the backend assigned to an identifier on its
    /// own; one it did not assign reads as the all-ones index.
    pub fn get_automatic_msl_resource_binding(&self, id: u32) -> (r: Result<u32, ErrorCode>)
        ensures
            r matches Ok(v) && v == engine::spec_lookup_or(
                self@.instance.automatic_bindings,
                engine::spec_id_key(id),
                0xFFFF_FFFFu32,
            ),
    {
        self.compiler.automatic_msl_resource_binding(id)
    }

    /// The flattened override arrays the engine received with the last
    /// compile command, for an instrumented harness to inspect.
    pub fn received_overrides(&self) -> (r: (
        Vec<native::ShaderInterfaceVariableRecord>,
        Vec<native::ResourceBindingRecord>,
        Vec<native::ConstSamplerMappingRecord>,
    ))
        ensures
            r.0@ == self@.instance.received_interface_variables,
            r.1@ == self@.instance.received_resource_bindings,
            r.2@ == self@.instance.received_const_samplers,
    {
        self.compiler.received_overrides()
    }
}

} // verus!

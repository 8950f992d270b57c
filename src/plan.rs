use vstd::arithmetic::div_mod::lemma_fundamental_div_mod;
use vstd::arithmetic::div_mod::lemma_fundamental_div_mod_converse;
use vstd::prelude::*;

use crate::error::BatchError;

verus! {

/// Bytes of one object that are fetched: one chunk per object.
pub const CHUNK_SIZE: usize = 1073741824;

/// Bytes fetched by one ranged request.
pub const PART_SIZE: usize = 52428800;

/// One ranged read: which object, which bytes of it (inclusive bounds), and
/// where they land in the region.
#[derive(Debug, Clone, PartialEq, Eq)]
pub struct PartDescriptor {
    pub key: String,
    pub range_start: usize,
    pub range_end: usize,
    pub dest_offset: usize,
    pub expected_length: usize,
}

/// The mathematical content of a `PartDescriptor`.
pub ghost struct PartView {
    pub key: Seq<char>,
    pub range_start: int,
    pub range_end: int,
    pub dest_offset: int,
    pub expected_length: int,
}

impl View for PartDescriptor {
    type V = PartView;

    open spec fn view(&self) -> PartView {
        PartView {
            key: self.key@,
            range_start: self.range_start as int,
            range_end: self.range_end as int,
            dest_offset: self.dest_offset as int,
            expected_length: self.expected_length as int,
        }
    }
}

/// The keys as character sequences.
pub open spec fn key_views(keys: Seq<String>) -> Seq<Seq<char>> {
    keys.map_values(|k: String| k@)
}

/// A chunk size that splits into whole parts.
pub open spec fn valid_sizes(chunk_size: nat, part_size: nat) -> bool {
    part_size > 0 && chunk_size % part_size == 0
}

/// The `i`-th part of the plan: part `i % ppo` of object `i / ppo`, where
/// `ppo` is the number of parts per object.
pub open spec fn planned_part(keys: Seq<Seq<char>>, chunk_size: nat, part_size: nat, i: int) -> PartView {
    let ppo = chunk_size / part_size;
    let o = i / (ppo as int);
    let p = i % (ppo as int);
    PartView {
        key: keys[o],
        range_start: p * part_size,
        range_end: (p + 1) * part_size - 1,
        dest_offset: o * chunk_size + p * part_size,
        expected_length: part_size as int,
    }
}

/// `r` is the plan for `keys`: every part of object 0 in ascending order,
/// then every part of object 1, and so on.
pub open spec fn is_plan(r: Seq<PartView>, keys: Seq<Seq<char>>, chunk_size: nat, part_size: nat) -> bool {
    &&& r.len() == keys.len() * (chunk_size / part_size)
    &&& forall|i: int| 0 <= i < r.len() ==> #[trigger] r[i] == planned_part(keys, chunk_size, part_size, i)
}

/// Bytes of the region that holds one chunk of each of `object_count`
/// objects, or `None` where that number does not fit in a `usize`.
pub fn region_size(object_count: usize, chunk_size: usize) -> (r: Option<usize>)
    ensures
        r is Some <==> object_count * chunk_size <= usize::MAX,
        r is Some ==> r->Some_0 == object_count * chunk_size,
{
    object_count.checked_mul(chunk_size)
}

/// Splits each object's chunk into parts of `part_size` bytes and gives each
/// part its place in a region of `keys.len() * chunk_size` bytes.
pub fn plan(keys: &Vec<String>, chunk_size: usize, part_size: usize) -> (r: Result<Vec<PartDescriptor>, BatchError>)
    requires
        keys.len() * chunk_size <= usize::MAX,
    ensures
        r is Ok <==> valid_sizes(chunk_size as nat, part_size as nat),
        r is Err ==> r->Err_0 == (BatchError::Configuration { chunk_size, part_size }),
        r is Ok ==> {
            let ds = r->Ok_0@;
            &&& ds.len() == keys.len() * (chunk_size / part_size)
            &&& forall|i: int| 0 <= i < ds.len() ==>
                #[trigger] ds[i]@ == planned_part(key_views(keys@), chunk_size as nat, part_size as nat, i)
        },
{
    if part_size == 0 || chunk_size % part_size != 0 {
        return Err(BatchError::Configuration { chunk_size, part_size });
    }
    let ppo = chunk_size / part_size;
    let ghost kv = key_views(keys@);
    let ghost n = keys.len() as int;
    proof {
        lemma_fundamental_div_mod(chunk_size as int, part_size as int);
    }
    let mut out: Vec<PartDescriptor> = Vec::new();
    let mut o: usize = 0;
    while o < keys.len()
        invariant
            part_size > 0,
            chunk_size == ppo * part_size,
            ppo == chunk_size / part_size,
            n == keys.len(),
            kv == key_views(keys@),
            n * chunk_size <= usize::MAX,
            o <= n,
            out.len() == o * ppo,
            forall|i: int| 0 <= i < out.len() ==>
                #[trigger] out[i]@ == planned_part(kv, chunk_size as nat, part_size as nat, i),
        decreases n - o,
    {
        assert((o + 1) * chunk_size <= n * chunk_size) by (nonlinear_arith)
            requires o < n, chunk_size >= 0;
        let mut p: usize = 0;
        while p < ppo
            invariant
                part_size > 0,
                chunk_size == ppo * part_size,
                ppo == chunk_size / part_size,
                n == keys.len(),
                kv == key_views(keys@),
                o < n,
                (o + 1) * chunk_size <= usize::MAX,
                p <= ppo,
                out.len() == o * ppo + p,
                forall|i: int| 0 <= i < out.len() ==>
                    #[trigger] out[i]@ == planned_part(kv, chunk_size as nat, part_size as nat, i),
            decreases ppo - p,
        {
            assert(p * part_size + part_size <= chunk_size) by (nonlinear_arith)
                requires p < ppo, chunk_size == ppo * part_size, part_size > 0;
            assert(o * chunk_size + p * part_size + part_size <= (o + 1) * chunk_size) by (nonlinear_arith)
                requires p * part_size + part_size <= chunk_size;
            let start = p * part_size;
            let dest = o * chunk_size + start;
            let d = PartDescriptor {
                key: keys[o].clone(),
                range_start: start,
                range_end: start + part_size - 1,
                dest_offset: dest,
                expected_length: part_size,
            };
            proof {
                let i = o * ppo + p;
                lemma_fundamental_div_mod_converse(i, ppo as int, o as int, p as int);
                assert(kv[o as int] == keys@[o as int]@);
            }
            let ghost before = out@;
            out.push(d);
            proof {
                let i = o * ppo + p;
                assert(d@.key == kv[o as int]);
                assert((p + 1) * part_size == p * part_size + part_size) by (nonlinear_arith);
                assert(d@ == planned_part(kv, chunk_size as nat, part_size as nat, i));
                assert(forall|j: int| 0 <= j < before.len() ==> out@[j] == before[j]);
            }
            p = p + 1;
        }
        assert((o + 1) * ppo == o * ppo + ppo) by (nonlinear_arith);
        o = o + 1;
    }
    Ok(out)
}

/// Byte `b` of the region lies in the destination range of `d`.
pub open spec fn covers(d: PartView, b: int) -> bool {
    d.dest_offset <= b < d.dest_offset + d.expected_length
}

/// Byte `b` of the region lies in the destination range of some part of `r`.
pub open spec fn covered(r: Seq<PartView>, b: int) -> bool {
    exists|i: int| 0 <= i < r.len() && #[trigger] covers(r[i], b)
}

/// In a plan, part `i` lands at `i * part_size`; every destination range lies
/// inside `[0, keys.len() * chunk_size)`; the ranges follow each other in
/// ascending order without overlap; and every byte of that interval lies in
/// one of them.
pub proof fn lemma_plan_tiles(r: Seq<PartView>, keys: Seq<Seq<char>>, chunk_size: nat, part_size: nat)
    requires
        valid_sizes(chunk_size, part_size),
        is_plan(r, keys, chunk_size, part_size),
    ensures
        forall|i: int| 0 <= i < r.len() ==> (#[trigger] r[i]).dest_offset == i * part_size
            && r[i].expected_length == part_size,
        forall|i: int| 0 <= i < r.len() ==> 0 <= (#[trigger] r[i]).dest_offset
            && r[i].dest_offset + r[i].expected_length <= keys.len() * chunk_size,
        forall|i: int, j: int| 0 <= i < j < r.len() ==>
            (#[trigger] r[i]).dest_offset + r[i].expected_length <= (#[trigger] r[j]).dest_offset,
        forall|b: int| 0 <= b < keys.len() * chunk_size ==> #[trigger] covered(r, b),
{
    let ppo = chunk_size / part_size;
    let n = keys.len();
    lemma_fundamental_div_mod(chunk_size as int, part_size as int);
    assert(chunk_size == ppo * part_size);
    assert forall|i: int| 0 <= i < r.len() implies (#[trigger] r[i]).dest_offset == i * part_size by {
        lemma_fundamental_div_mod(i, ppo as int);
        let o = i / (ppo as int);
        let p = i % (ppo as int);
        assert(o * chunk_size + p * part_size == i * part_size) by (nonlinear_arith)
            requires i == ppo * o + p, chunk_size == ppo * part_size;
    }
    assert forall|i: int| 0 <= i < r.len() implies 0 <= (#[trigger] r[i]).dest_offset
        && r[i].dest_offset + r[i].expected_length <= n * chunk_size by {
        assert(0 <= i * part_size && i * part_size + part_size <= n * chunk_size) by (nonlinear_arith)
            requires 0 <= i < n * ppo, chunk_size == ppo * part_size, part_size > 0;
    }
    assert forall|i: int, j: int| 0 <= i < j < r.len() implies
        (#[trigger] r[i]).dest_offset + r[i].expected_length <= (#[trigger] r[j]).dest_offset by {
        assert(i * part_size + part_size <= j * part_size) by (nonlinear_arith)
            requires i < j, part_size > 0;
    }
    assert forall|b: int| 0 <= b < n * chunk_size implies #[trigger] covered(r, b) by {
        lemma_fundamental_div_mod(b, part_size as int);
        let q = b / (part_size as int);
        let m = b % (part_size as int);
        assert(0 <= q < n * ppo && q * part_size <= b < q * part_size + part_size) by (nonlinear_arith)
            requires b == part_size * q + m, 0 <= m < part_size, 0 <= b < n * chunk_size,
                chunk_size == ppo * part_size, part_size > 0;
        assert(r[q].dest_offset == q * part_size);
        assert(covers(r[q], b));
    }
}

/// Planning is a function of its inputs: two plans of the same keys and
/// sizes are the same sequence of parts.
pub proof fn lemma_plan_deterministic(
    r1: Seq<PartView>,
    r2: Seq<PartView>,
    keys: Seq<Seq<char>>,
    chunk_size: nat,
    part_size: nat,
)
    requires
        is_plan(r1, keys, chunk_size, part_size),
        is_plan(r2, keys, chunk_size, part_size),
    ensures
        r1 == r2,
{
    assert(r1 =~= r2);
}

} // verus!

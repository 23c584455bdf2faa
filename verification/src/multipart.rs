//! Multipart-upload orchestration: payload chunking, fan-in of part results,
//! and the ascending part-number order that completion requires.

use vstd::prelude::*;

verus! {

broadcast use vstd::seq_lib::group_to_multiset_ensures;

/// One uploaded part: its 1-based part number and the opaque content tag the
/// storage service returned for it, both required by the completion call.
pub struct UploadPart {
    pub part_number: u64,
    pub e_tag: String,
}

/// How many parts a payload of `len` bytes splits into with parts of
/// `part` bytes: full parts, plus one for a final remainder.
pub open spec fn spec_num_parts(len: int, part: int) -> int
    recommends
        part >= 1,
    decreases len when part >= 1
{
    if len <= 0 {
        0
    } else if len <= part {
        1
    } else {
        1 + spec_num_parts(len - part, part)
    }
}

/// The part count is the length divided by the part size, rounded up.
pub proof fn lemma_num_parts_is_ceiling(len: int, part: int)
    requires
        len >= 0,
        part >= 1,
    ensures
        spec_num_parts(len, part) == (len + part - 1) / part,
    decreases len,
{
    if len == 0 {
        assert((part - 1) / part == 0) by (nonlinear_arith)
            requires
                part >= 1,
        ;
    } else if len <= part {
        assert((len + part - 1) / part == 1) by (nonlinear_arith)
            requires
                1 <= len <= part,
        ;
    } else {
        lemma_num_parts_is_ceiling(len - part, part);
        assert((len - part + part - 1) / part + 1 == (len + part - 1) / part) by (nonlinear_arith)
            requires
                part >= 1,
                len > part,
        ;
    }
}

/// Total length of a sequence of chunks.
pub open spec fn sum_chunk_lens(chunks: Seq<Seq<u8>>) -> int
    decreases chunks.len(),
{
    if chunks.len() == 0 {
        0
    } else {
        sum_chunk_lens(chunks.drop_last()) + chunks.last().len()
    }
}

/// Splits a payload into its multipart chunks: every chunk is `part_size`
/// bytes except the last, which holds the remainder; concatenated in order
/// they are exactly the payload.
pub fn split_into_chunks(data: &Vec<u8>, part_size: usize) -> (r: Vec<Vec<u8>>)
    requires
        part_size >= 1,
    ensures
        r@.len() == spec_num_parts(data@.len() as int, part_size as int),
        forall|i: int|
            0 <= i < r@.len() ==> #[trigger] r@[i]@ == data@.subrange(
                i * part_size,
                vstd::math::min((i + 1) * part_size, data@.len() as int),
            ),
        sum_chunk_lens(r@.map_values(|c: Vec<u8>| c@)) == data@.len(),
{
    let mut r: Vec<Vec<u8>> = Vec::new();
    let mut offset: usize = 0;
    proof {
        assert(0 * (part_size as int) == 0) by (nonlinear_arith);
    }
    while offset < data.len()
        invariant
            part_size >= 1,
            offset <= data@.len(),
            offset == vstd::math::min(r@.len() * part_size as int, data@.len() as int),
            r@.len() + spec_num_parts(data@.len() - offset, part_size as int) == spec_num_parts(
                data@.len() as int,
                part_size as int,
            ),
            forall|i: int|
                0 <= i < r@.len() ==> #[trigger] r@[i]@ == data@.subrange(
                    i * part_size,
                    vstd::math::min((i + 1) * part_size, data@.len() as int),
                ),
            sum_chunk_lens(r@.map_values(|c: Vec<u8>| c@)) == offset,
        decreases data@.len() - offset,
    {
        let end: usize = if part_size <= data.len() - offset {
            offset + part_size
        } else {
            data.len()
        };
        let ghost k = r@.len() as int;
        proof {
            assert((k + 1) * part_size == k * part_size + part_size) by (nonlinear_arith);
            assert(k * part_size >= 0) by (nonlinear_arith)
                requires
                    k >= 0,
                    part_size >= 0,
            ;
        }
        let mut chunk: Vec<u8> = Vec::new();
        let mut j: usize = offset;
        while j < end
            invariant
                offset <= j <= end,
                end <= data@.len(),
                chunk@ == data@.subrange(offset as int, j as int),
            decreases end - j,
        {
            chunk.push(data[j]);
            proof {
                assert(chunk@ =~= data@.subrange(offset as int, j + 1));
            }
            j = j + 1;
        }
        proof {
            let old_map = r@.map_values(|c: Vec<u8>| c@);
            let new_map = r@.push(chunk).map_values(|c: Vec<u8>| c@);
            assert(new_map.drop_last() =~= old_map);
            assert(new_map.last() == chunk@);
        }
        r.push(chunk);
        offset = end;
    }
    proof {
        assert(offset == data@.len());
    }
    r
}

/// Every part upload delivered a result.
pub open spec fn all_parts_present(s: Seq<Option<UploadPart>>) -> bool {
    forall|i: int| 0 <= i < s.len() ==> (#[trigger] s[i]) is Some
}

/// `out` is the delivered parts, in the order their uploads were launched.
pub open spec fn extracted_parts_match(s: Seq<Option<UploadPart>>, out: Seq<UploadPart>) -> bool {
    &&& out.len() == s.len()
    &&& forall|i: int| 0 <= i < s.len() ==> (#[trigger] s[i])->0 == out[i]
}

/// Fan-in of the concurrent part uploads: succeeds with the parts in launch
/// order exactly when every part upload succeeded; any missing part fails the
/// whole multipart operation.
#[verifier::loop_isolation(false)]
pub fn collect_part_results(results: Vec<Option<UploadPart>>) -> (r: Option<Vec<UploadPart>>)
    ensures
        r is Some <==> all_parts_present(results@),
        r is Some ==> extracted_parts_match(results@, r->0@),
{
    let ghost orig = results@;
    let mut rest = results;
    let mut out: Vec<UploadPart> = Vec::new();
    while rest.len() > 0
        invariant
            out@.len() + rest@.len() == orig.len(),
            forall|k: int| 0 <= k < out@.len() ==> (#[trigger] orig[k]) is Some && orig[k]->0
                == out@[k],
            forall|k: int| 0 <= k < rest@.len() ==> #[trigger] rest@[k] == orig[out@.len() + k],
        decreases rest@.len(),
    {
        let ghost rest0 = rest@;
        let ghost out0 = out@;
        let x = rest.remove(0);
        proof {
            assert(x == rest0[0]);
            assert(rest0[0] == orig[out0.len() as int]);
        }
        match x {
            Option::Some(p) => {
                out.push(p);
                proof {
                    assert forall|k: int| 0 <= k < out@.len() implies (#[trigger] orig[k]) is Some
                        && orig[k]->0 == out@[k] by {
                        if k < out0.len() {
                        } else {
                            assert(out@[k] == p);
                        }
                    }
                    assert forall|k: int| 0 <= k < rest@.len() implies #[trigger] rest@[k]
                        == orig[out@.len() + k] by {
                        assert(rest@[k] == rest0[k + 1]);
                    }
                }
            },
            Option::None => {
                proof {
                    assert(orig[out0.len() as int] is None);
                    assert(!all_parts_present(orig));
                }
                return Option::None;
            },
        }
    }
    proof {
        assert(all_parts_present(orig));
        assert(extracted_parts_match(orig, out@));
    }
    Option::Some(out)
}

/// The parts stand in ascending part-number order.
pub open spec fn parts_sorted(s: Seq<UploadPart>) -> bool {
    forall|i: int, j: int|
        0 <= i < j < s.len() ==> #[trigger] s[i].part_number <= #[trigger] s[j].part_number
}

/// No two parts carry the same part number.
pub open spec fn parts_distinct(s: Seq<UploadPart>) -> bool {
    forall|i: int, j: int|
        0 <= i < j < s.len() ==> #[trigger] s[i].part_number != #[trigger] s[j].part_number
}

/// The parts are numbered 1, 2, ... in positional order, as the completion
/// call requires.
pub open spec fn parts_contiguous(s: Seq<UploadPart>) -> bool {
    forall|i: int| 0 <= i < s.len() ==> #[trigger] s[i].part_number == i + 1
}

/// Reorders completed parts into ascending part-number order, whatever order
/// their uploads finished in; the result holds exactly the parts given.
pub fn sort_parts_by_number(parts: Vec<UploadPart>) -> (r: Vec<UploadPart>)
    ensures
        parts_sorted(r@),
        r@.to_multiset() == parts@.to_multiset(),
        r@.len() == parts@.len(),
{
    let ghost orig = parts@;
    let mut rest = parts;
    let mut out: Vec<UploadPart> = Vec::new();
    while rest.len() > 0
        invariant
            out@.to_multiset().add(rest@.to_multiset()) =~= orig.to_multiset(),
            out@.len() + rest@.len() == orig.len(),
            parts_sorted(out@),
            forall|i: int, j: int|
                0 <= i < out@.len() && 0 <= j < rest@.len() ==> #[trigger] out@[i].part_number
                    <= #[trigger] rest@[j].part_number,
        decreases rest@.len(),
    {
        let mut m: usize = 0;
        let mut c: usize = 1;
        while c < rest.len()
            invariant
                m < c <= rest@.len(),
                rest@.len() > 0,
                forall|j: int|
                    0 <= j < c ==> rest@[m as int].part_number
                        <= #[trigger] rest@[j].part_number,
            decreases rest@.len() - c,
        {
            if rest[c].part_number < rest[m].part_number {
                m = c;
            }
            c = c + 1;
        }
        let p = rest.remove(m);
        proof {
            assert(out@.push(p).to_multiset() =~= out@.to_multiset().insert(p));
            assert(out@.push(p).to_multiset().add(rest@.to_multiset()) =~= orig.to_multiset());
        }
        out.push(p);
    }
    out
}

proof fn lemma_sorted_distinct_lower_bound(s: Seq<UploadPart>, i: int)
    requires
        parts_sorted(s),
        parts_distinct(s),
        forall|k: int| 0 <= k < s.len() ==> 1 <= #[trigger] s[k].part_number,
        0 <= i < s.len(),
    ensures
        s[i].part_number >= i + 1,
    decreases i,
{
    if i > 0 {
        lemma_sorted_distinct_lower_bound(s, i - 1);
    }
}

proof fn lemma_sorted_distinct_upper_bound(s: Seq<UploadPart>, i: int)
    requires
        parts_sorted(s),
        parts_distinct(s),
        forall|k: int| 0 <= k < s.len() ==> #[trigger] s[k].part_number <= s.len(),
        0 <= i < s.len(),
    ensures
        s[i].part_number <= i + 1,
    decreases s.len() - i,
{
    if i < s.len() - 1 {
        lemma_sorted_distinct_upper_bound(s, i + 1);
    }
}

/// Law of the completion order: once sorted, a set of parts with distinct
/// part numbers drawn from 1..=N (one per part, in any completion order) is
/// exactly the sequence numbered 1, 2, ..., N.
pub proof fn lemma_sorted_parts_are_contiguous(s: Seq<UploadPart>)
    requires
        parts_sorted(s),
        parts_distinct(s),
        forall|k: int| 0 <= k < s.len() ==> 1 <= #[trigger] s[k].part_number <= s.len(),
    ensures
        parts_contiguous(s),
{
    assert forall|i: int| 0 <= i < s.len() implies #[trigger] s[i].part_number == i + 1 by {
        lemma_sorted_distinct_lower_bound(s, i);
        lemma_sorted_distinct_upper_bound(s, i);
    }
}

/// Law of the completion request, end to end: take a complete part set —
/// numbers drawn from 1..=N, no number twice — in whatever order the part
/// uploads happened to finish, and reorder it by part number; the submitted
/// sequence is then exactly the parts numbered 1, 2, ..., N, whatever the
/// completion order was. `output` is constrained precisely as
/// `sort_parts_by_number` ensures.
pub proof fn lemma_sorting_shuffled_parts_restores_order(
    input: Seq<UploadPart>,
    output: Seq<UploadPart>,
)
    requires
        parts_sorted(output),
        output.to_multiset() == input.to_multiset(),
        parts_distinct(input),
        forall|k: int|
            0 <= k < input.len() ==> 1 <= (#[trigger] input[k]).part_number <= input.len(),
    ensures
        parts_contiguous(output),
{
    assert(output.len() == output.to_multiset().len());
    assert(input.len() == input.to_multiset().len());
    assert(output.len() == input.len());
    assert(input.no_duplicates()) by {
        assert forall|i: int, j: int|
            0 <= i < input.len() && 0 <= j < input.len() && i != j implies input[i]
            != input[j] by {
            if i < j {
                assert(input[i].part_number != input[j].part_number);
            } else {
                assert(input[j].part_number != input[i].part_number);
            }
        }
    }
    input.lemma_multiset_has_no_duplicates();
    output.lemma_multiset_has_no_duplicates_conv();
    assert forall|k: int|
        0 <= k < output.len() implies 1 <= (#[trigger] output[k]).part_number
        <= output.len() by {
        let x = output[k];
        assert(output.contains(x));
        assert(input.to_multiset().count(x) > 0);
        assert(input.contains(x));
        let j = choose|j: int| 0 <= j < input.len() && input[j] == x;
        assert(1 <= input[j].part_number <= input.len());
    }
    assert(parts_distinct(output)) by {
        assert forall|i: int, j: int|
            0 <= i < j < output.len() implies #[trigger] output[i].part_number
            != #[trigger] output[j].part_number by {
            let x = output[i];
            let y = output[j];
            assert(x != y);
            if x.part_number == y.part_number {
                assert(output.contains(x));
                assert(output.contains(y));
                assert(input.to_multiset().count(x) > 0);
                assert(input.to_multiset().count(y) > 0);
                assert(input.contains(x));
                assert(input.contains(y));
                let jx = choose|jx: int| 0 <= jx < input.len() && input[jx] == x;
                let jy = choose|jy: int| 0 <= jy < input.len() && input[jy] == y;
                assert(jx != jy);
                if jx < jy {
                    assert(input[jx].part_number != input[jy].part_number);
                } else {
                    assert(input[jy].part_number != input[jx].part_number);
                }
                assert(false);
            }
        }
    }
    lemma_sorted_parts_are_contiguous(output);
}

/// Decides whether the parts are numbered exactly 1..=N in order, the shape
/// the completion request must have.
pub fn check_parts_contiguous(parts: &Vec<UploadPart>) -> (r: bool)
    ensures
        r <==> parts_contiguous(parts@),
{
    let mut i: usize = 0;
    while i < parts.len()
        invariant
            i <= parts@.len(),
            forall|k: int| 0 <= k < i ==> #[trigger] parts@[k].part_number == k + 1,
        decreases parts@.len() - i,
    {
        if parts[i].part_number != (i as u64) + 1 {
            return false;
        }
        i = i + 1;
    }
    true
}

} // verus!

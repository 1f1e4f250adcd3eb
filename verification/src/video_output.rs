//! The list of video outputs that the player tries, in the form of its option `vo`.
use crate::text::{join, join_texts, lemma_position, lemma_position_unique, position, same_text};
use crate::text::{split, split_text, texts};
use vstd::prelude::*;

verus! {

/// The parts that are not empty, in their order.
pub open spec fn nonempty(parts: Seq<Seq<char>>) -> Seq<Seq<char>>
    decreases parts.len(),
{
    if parts.len() == 0 {
        Seq::empty()
    } else if parts.last().len() > 0 {
        nonempty(parts.drop_last()).push(parts.last())
    } else {
        nonempty(parts.drop_last())
    }
}

/// The outputs that an option names, between commas.
pub open spec fn outputs_of(vo: Seq<char>) -> Seq<Seq<char>> {
    nonempty(split(vo, ','))
}

/// The outputs with a fallback for `gpu-next` and `gpu`: each of them brings the other, and a
/// list without outputs gets both.
pub open spec fn with_fallback(outputs: Seq<Seq<char>>) -> Seq<Seq<char>> {
    let has_gpu_next = outputs.contains("gpu-next"@);
    let has_gpu = outputs.contains("gpu"@);
    if outputs.len() == 0 {
        seq!["gpu-next"@, "gpu"@]
    } else if has_gpu_next && !has_gpu {
        outputs.push("gpu"@)
    } else if has_gpu && !has_gpu_next {
        outputs.push("gpu-next"@)
    } else {
        outputs
    }
}

/// Outputs in the form of the option: between commas, with one more at the end, behind which the
/// player tries whatever else it has.
pub open spec fn option_text(outputs: Seq<Seq<char>>) -> Seq<char> {
    join(outputs, ","@) + ","@
}

/// Whether one of `outputs` is `name`.
fn names_output(outputs: &Vec<String>, name: &str) -> (named: bool)
    ensures
        named == texts(outputs@).contains(name@),
{
    let mut i: usize = 0;
    while i < outputs.len()
        invariant
            i <= outputs.len(),
            forall|k: int| 0 <= k < i ==> texts(outputs@)[k] != name@,
        decreases outputs.len() - i,
    {
        if same_text(outputs[i].as_str(), name) {
            assert(texts(outputs@)[i as int] == name@);
            return true;
        }
        i += 1;
    }
    false
}

/// The option `vo` with a fallback for `gpu-next` and `gpu`.
pub fn with_gpu_next_fallback(vo: String) -> (option: String)
    ensures
        option@ == option_text(with_fallback(outputs_of(vo@))),
{
    let pieces = split_text(vo.as_str(), ',');
    let ghost parts = split(vo@, ',');
    assert(texts(pieces@).len() == pieces@.len());
    let mut outputs: Vec<String> = Vec::new();
    assert(texts(outputs@) =~= nonempty(parts.take(0)));
    let mut i: usize = 0;
    while i < pieces.len()
        invariant
            i <= pieces.len(),
            parts == texts(pieces@),
            texts(outputs@) == nonempty(parts.take(i as int)),
        decreases pieces.len() - i,
    {
        let ghost before = outputs@;
        assert(parts[i as int] == pieces@[i as int]@);
        if !pieces[i].as_str().is_empty() {
            outputs.push(pieces[i].clone());
            assert(texts(outputs@) =~= texts(before).push(parts[i as int]));
        }
        i += 1;
        assert(parts.take(i as int).drop_last() =~= parts.take(i - 1));
    }
    assert(parts.take(i as int) =~= parts);
    let ghost found = outputs@;
    assert(texts(found).len() == found.len());

    let has_gpu_next = names_output(&outputs, "gpu-next");
    let has_gpu = names_output(&outputs, "gpu");
    if outputs.len() == 0 {
        outputs.push("gpu-next".to_owned());
        outputs.push("gpu".to_owned());
        assert(texts(outputs@) =~= seq!["gpu-next"@, "gpu"@]);
    } else if has_gpu_next && !has_gpu {
        outputs.push("gpu".to_owned());
        assert(texts(outputs@) =~= texts(found).push("gpu"@));
    } else if has_gpu && !has_gpu_next {
        outputs.push("gpu-next".to_owned());
        assert(texts(outputs@) =~= texts(found).push("gpu-next"@));
    }
    let mut option = join_texts(&outputs, ",");
    option.append(",");
    option
}

/// Whether the texts can stand between commas.
pub open spec fn are_outputs(outputs: Seq<Seq<char>>) -> bool {
    forall|i: int|
        0 <= i < outputs.len() ==> (#[trigger] outputs[i]).len() > 0 && !outputs[i].contains(',')
}

/// What stands between separators holds none.
proof fn lemma_split_parts(s: Seq<char>, sep: char)
    ensures
        split(s, sep).len() > 0,
        forall|i: int| 0 <= i < split(s, sep).len() ==> !(#[trigger] split(s, sep)[i]).contains(sep),
    decreases s.len(),
{
    lemma_position(s, sep);
    let p = position(s, sep);
    if p == s.len() {
        assert(split(s, sep) =~= seq![s]);
    } else {
        let rest = s.skip(p + 1);
        lemma_split_parts(rest, sep);
        assert(split(s, sep) =~= seq![s.take(p)] + split(rest, sep));
        assert forall|i: int| 0 <= i < split(s, sep).len() implies !(
        #[trigger] split(s, sep)[i]).contains(sep) by {
            if i > 0 {
                assert(split(s, sep)[i] == split(rest, sep)[i - 1]);
            }
        }
    }
}

/// Leaving out empty parts leaves outputs.
proof fn lemma_nonempty_parts(parts: Seq<Seq<char>>)
    requires
        forall|i: int| 0 <= i < parts.len() ==> !(#[trigger] parts[i]).contains(','),
    ensures
        are_outputs(nonempty(parts)),
    decreases parts.len(),
{
    if parts.len() > 0 {
        let front = parts.drop_last();
        assert forall|i: int| 0 <= i < front.len() implies !(#[trigger] front[i]).contains(',') by {
            assert(front[i] == parts[i]);
        }
        lemma_nonempty_parts(front);
        assert(!parts[parts.len() - 1].contains(','));
    }
}

/// Leaving out empty parts changes nothing where there are none.
proof fn lemma_all_nonempty(parts: Seq<Seq<char>>)
    requires
        are_outputs(parts),
    ensures
        nonempty(parts) == parts,
    decreases parts.len(),
{
    if parts.len() > 0 {
        let front = parts.drop_last();
        assert forall|i: int| 0 <= i < front.len() implies (#[trigger] front[i]).len() > 0
            && !front[i].contains(',') by {
            assert(front[i] == parts[i]);
        }
        lemma_all_nonempty(front);
        assert(parts[parts.len() - 1].len() > 0);
        assert(front.push(parts.last()) =~= parts);
    } else {
        assert(nonempty(parts) =~= parts);
    }
}

/// What an option in its form is split into: its outputs, and the empty part at the end.
proof fn lemma_split_option(outputs: Seq<Seq<char>>)
    requires
        are_outputs(outputs),
        outputs.len() > 0,
    ensures
        split(option_text(outputs), ',') == outputs.push(Seq::empty()),
    decreases outputs.len(),
{
    reveal_strlit(",");
    let text = option_text(outputs);
    let first = outputs[0];
    let n = first.len() as int;
    let rest = outputs.drop_first();
    let tail = if outputs.len() == 1 {
        Seq::<char>::empty()
    } else {
        option_text(rest)
    };
    assert(text =~= first + seq![','] + tail);
    assert forall|i: int| 0 <= i < n implies text[i] != ',' by {
        assert(text[i] == first[i]);
        assert(first.contains(first[i]));
    }
    lemma_position_unique(text, ',', n);
    assert(text.take(n) =~= first);
    assert(text.skip(n + 1) =~= tail);
    if outputs.len() == 1 {
        lemma_position_unique(tail, ',', 0);
        assert(split(tail, ',') =~= seq![Seq::<char>::empty()]);
    } else {
        assert forall|i: int| 0 <= i < rest.len() implies (#[trigger] rest[i]).len() > 0
            && !rest[i].contains(',') by {
            assert(rest[i] == outputs[i + 1]);
        }
        lemma_split_option(rest);
    }
    assert(seq![first] + split(tail, ',') =~= outputs.push(Seq::empty()));
}

/// What an option names, can stand between commas.
proof fn lemma_fallback_outputs(vo: Seq<char>)
    ensures
        are_outputs(outputs_of(vo)),
        are_outputs(with_fallback(outputs_of(vo))),
        with_fallback(outputs_of(vo)).len() > 0,
{
    lemma_split_parts(vo, ',');
    lemma_nonempty_parts(split(vo, ','));
    reveal_strlit("gpu");
    reveal_strlit("gpu-next");
}

/// The option that is written names the outputs that were meant, in their order.
pub proof fn law_option_reads_back(vo: Seq<char>)
    ensures
        outputs_of(option_text(with_fallback(outputs_of(vo)))) == with_fallback(outputs_of(vo)),
{
    let outputs = with_fallback(outputs_of(vo));
    lemma_fallback_outputs(vo);
    lemma_split_option(outputs);
    assert(outputs.push(Seq::empty()).drop_last() =~= outputs);
    lemma_all_nonempty(outputs);
}

/// The outputs that were named stay in front, in their order, and `gpu-next` and `gpu` come
/// together or not at all.
pub proof fn law_fallback_keeps_outputs(outputs: Seq<Seq<char>>)
    ensures
        outputs.is_prefix_of(with_fallback(outputs)),
        with_fallback(outputs).contains("gpu-next"@) <==> with_fallback(outputs).contains("gpu"@),
{
    let result = with_fallback(outputs);
    if outputs.len() == 0 {
        assert(result[0] == "gpu-next"@ && result[1] == "gpu"@);
    } else if result != outputs {
        let last = result[result.len() - 1];
        if outputs.contains("gpu-next"@) {
            let k = choose|k: int| 0 <= k < outputs.len() && outputs[k] == "gpu-next"@;
            assert(result[k] == "gpu-next"@);
        } else {
            let k = choose|k: int| 0 <= k < outputs.len() && outputs[k] == "gpu"@;
            assert(result[k] == "gpu"@);
        }
        assert(last == "gpu"@ || last == "gpu-next"@);
    }
}

/// The fallback is added once: an option that has it stays as it is.
pub proof fn law_fallback_is_idempotent(vo: Seq<char>)
    ensures
        ({
            let option = option_text(with_fallback(outputs_of(vo)));
            option_text(with_fallback(outputs_of(option))) == option
        }),
{
    law_option_reads_back(vo);
    law_fallback_keeps_outputs(outputs_of(vo));
    lemma_fallback_outputs(vo);
}

/// An option is read between its commas: what stands in front of a comma and what stands behind it
/// are read on their own, a text without commas is one output, and an empty one is none.
pub proof fn law_outputs_stand_between_commas(a: Seq<char>, b: Seq<char>)
    ensures
        outputs_of(a + seq![','] + b) == outputs_of(a) + outputs_of(b),
        !a.contains(',') && a.len() > 0 ==> outputs_of(a) == seq![a],
        a.len() == 0 ==> outputs_of(a) == Seq::<Seq<char>>::empty(),
{
    lemma_split_at_comma(a, b);
    lemma_nonempty_of_both(split(a, ','), split(b, ','));
    if !a.contains(',') {
        lemma_position(a, ',');
        assert(split(a, ',') =~= seq![a]);
        assert(seq![a].drop_last() =~= Seq::<Seq<char>>::empty());
        reveal_with_fuel(nonempty, 2);
        if a.len() > 0 {
            assert(nonempty(seq![a]) =~= seq![a]);
        }
    }
}

/// A text with a comma in it is split at the comma.
proof fn lemma_split_at_comma(a: Seq<char>, b: Seq<char>)
    ensures
        split(a + seq![','] + b, ',') == split(a, ',') + split(b, ','),
    decreases a.len(),
{
    let s = a + seq![','] + b;
    lemma_position(a, ',');
    let p = position(a, ',');
    assert forall|i: int| 0 <= i < p implies s[i] != ',' by {
        assert(s[i] == a[i]);
    }
    lemma_position_unique(s, ',', p);
    assert(s.take(p) =~= a.take(p));
    if p == a.len() {
        assert(a.take(p) =~= a);
        assert(s.skip(p + 1) =~= b);
        assert(split(s, ',') =~= seq![a] + split(b, ','));
    } else {
        let rest = a.skip(p + 1);
        lemma_split_at_comma(rest, b);
        assert(s.skip(p + 1) =~= rest + seq![','] + b);
        assert(split(s, ',') =~= split(a, ',') + split(b, ','));
    }
}

/// Empty parts are left out of two lists as they are of each.
proof fn lemma_nonempty_of_both(x: Seq<Seq<char>>, y: Seq<Seq<char>>)
    ensures
        nonempty(x + y) == nonempty(x) + nonempty(y),
    decreases y.len(),
{
    if y.len() == 0 {
        assert(x + y =~= x);
        assert(nonempty(x) + nonempty(y) =~= nonempty(x));
    } else {
        lemma_nonempty_of_both(x, y.drop_last());
        assert((x + y).drop_last() =~= x + y.drop_last());
        assert((x + y).last() == y.last());
        assert(nonempty(x + y) =~= nonempty(x) + nonempty(y));
    }
}

/// Nothing is added to outputs but the one of `gpu-next` and `gpu` that lacks the other, or both
/// where there are no outputs: a list that names other outputs only stays as it is.
pub proof fn law_fallback_adds_nothing_else(outputs: Seq<Seq<char>>)
    ensures
        ({
            let result = with_fallback(outputs);
            let next = outputs.contains("gpu-next"@);
            let gpu = outputs.contains("gpu"@);
            &&& outputs.len() == 0 ==> result.len() == 2 && result[0] == "gpu-next"@ && result[1]
                == "gpu"@
            &&& outputs.len() > 0 && next == gpu ==> result == outputs
            &&& next && !gpu ==> result.len() == outputs.len() + 1 && result.last() == "gpu"@
            &&& gpu && !next ==> result.len() == outputs.len() + 1 && result.last() == "gpu-next"@
        }),
{
    if outputs.len() == 0 {
        assert(!outputs.contains("gpu-next"@) && !outputs.contains("gpu"@));
    }
}

/// An option names its outputs with a comma behind each, the last one among them.
pub proof fn law_each_output_ends_with_a_comma(first: Seq<char>, rest: Seq<Seq<char>>)
    ensures
        option_text(seq![first]) == first + seq![','],
        rest.len() > 0 ==> option_text(seq![first] + rest) == first + seq![','] + option_text(rest),
{
    reveal_strlit(",");
    assert(","@ =~= seq![',']);
    let all = seq![first] + rest;
    assert(all.drop_first() =~= rest);
    if rest.len() > 0 {
        assert(option_text(all) =~= first + seq![','] + option_text(rest));
    }
}

} // verus!

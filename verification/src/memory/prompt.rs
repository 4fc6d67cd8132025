//! System prompt assembly: SOUL + USER + MEMORY + recent daily notes, within a byte budget.
use vstd::prelude::*;

use crate::text::{
    char_utf8_width, char_width, chars_to_string, extend_chars, lemma_utf8_len_concat,
    lemma_utf8_len_prefix, push_char, str_to_chars, trim, trim_chars, trim_str, utf8_len,
};

verus! {

/// The separator between prompt sections.
pub open spec fn sep() -> Seq<char> {
    seq!['\n', '\n']
}

/// SOUL, USER and MEMORY, each trimmed, separated by blank lines.
pub open spec fn prompt_base(soul: Seq<char>, user: Seq<char>, memory: Seq<char>) -> Seq<char> {
    trim(soul) + sep() + trim(user) + sep() + trim(memory)
}

/// Length of the longest prefix of `s` whose UTF-8 encoding fits in `budget` bytes.
pub open spec fn fit_len(s: Seq<char>, budget: nat) -> nat
    decreases s.len(),
{
    if utf8_len(s) <= budget || s.len() == 0 {
        s.len()
    } else {
        fit_len(s.drop_last(), budget)
    }
}

/// The longest prefix of `s` whose UTF-8 encoding fits in `budget` bytes.
pub open spec fn fit(s: Seq<char>, budget: nat) -> Seq<char> {
    s.take(fit_len(s, budget) as int)
}

/// Appends whole daily notes in list order, each after a separator, while the text stays within
/// `max` bytes; from the first note that would not fit, that note and all after it are left
/// out (for newest-first notes: the oldest are dropped).
pub open spec fn with_notes(out: Seq<char>, notes: Seq<Seq<char>>, max: nat) -> Seq<char>
    decreases notes.len(),
{
    if notes.len() == 0 {
        out
    } else {
        let next = out + sep() + trim(notes[0]);
        if utf8_len(next) <= max {
            with_notes(next, notes.drop_first(), max)
        } else {
            out
        }
    }
}

/// The assembled prompt: the base with the whole notes that fit, or, when the base alone is
/// over `max` bytes, the base cut to `max` bytes.
pub open spec fn system_prompt(soul: Seq<char>, user: Seq<char>, memory: Seq<char>, notes: Seq<Seq<char>>, max: nat) -> Seq<char> {
    fit(with_notes(prompt_base(soul, user, memory), notes, max), max)
}

/// Bytes that the notes may add: a separator and the trimmed note each.
pub open spec fn notes_cost(notes: Seq<Seq<char>>) -> nat
    decreases notes.len(),
{
    if notes.len() == 0 {
        0
    } else {
        2 + utf8_len(trim(notes[0])) + notes_cost(notes.drop_first())
    }
}

proof fn lemma_utf8_len_push(s: Seq<char>, c: char)
    ensures
        utf8_len(s.push(c)) == utf8_len(s) + char_width(c),
{
    assert(s.push(c).drop_last() == s);
}

proof fn lemma_take_succ(s: Seq<char>, i: int)
    requires
        0 <= i < s.len(),
    ensures
        utf8_len(s.take(i + 1)) == utf8_len(s.take(i)) + char_width(s[i]),
{
    assert(s.take(i + 1).drop_last() == s.take(i));
}

/// Prefix byte lengths grow with the prefix.
proof fn lemma_take_monotone(s: Seq<char>, i: int, j: int)
    requires
        0 <= i <= j <= s.len(),
    ensures
        utf8_len(s.take(i)) <= utf8_len(s.take(j)),
{
    lemma_utf8_len_prefix(s.take(j), i);
    assert(s.take(j).take(i) == s.take(i));
}

/// The greedy scan stops at the fitting length.
proof fn lemma_fit_len_at(s: Seq<char>, budget: nat, i: int)
    requires
        0 <= i <= s.len(),
        utf8_len(s.take(i)) <= budget,
        i < s.len() ==> utf8_len(s.take(i + 1)) > budget,
    ensures
        fit_len(s, budget) == i,
    decreases s.len(),
{
    if i == s.len() {
        assert(s.take(i) == s);
    } else {
        lemma_take_monotone(s, i + 1, s.len() as int);
        assert(s.take(s.len() as int) == s);
        let t = s.drop_last();
        assert(t.take(i) == s.take(i));
        if i + 1 <= t.len() {
            assert(t.take(i + 1) == s.take(i + 1));
        }
        lemma_fit_len_at(t, budget, i);
    }
}

/// The fitting prefix is never longer than the budget.
proof fn lemma_fit_within(s: Seq<char>, budget: nat)
    ensures
        fit_len(s, budget) <= s.len(),
        utf8_len(fit(s, budget)) <= budget || fit_len(s, budget) == 0,
    decreases s.len(),
{
    if utf8_len(s) <= budget || s.len() == 0 {
        assert(s.take(s.len() as int) == s);
    } else {
        lemma_fit_within(s.drop_last(), budget);
        assert(s.drop_last().take(fit_len(s.drop_last(), budget) as int) == s.take(fit_len(s, budget) as int));
    }
}

/// UTF-8 byte length of a character vector.
fn utf8_len_of(v: &Vec<char>) -> (n: usize)
    requires
        utf8_len(v@) <= usize::MAX,
    ensures
        n == utf8_len(v@),
{
    let mut n: usize = 0;
    let mut i: usize = 0;
    while i < v.len()
        invariant
            i <= v.len(),
            n == utf8_len(v@.take(i as int)),
            utf8_len(v@) <= usize::MAX,
        decreases v.len() - i,
    {
        proof {
            lemma_take_succ(v@, i as int);
            lemma_take_monotone(v@, i as int + 1, v.len() as int);
            assert(v@.take(v.len() as int) == v@);
        }
        n = n + char_utf8_width(v[i]);
        i = i + 1;
    }
    assert(v@.take(v.len() as int) == v@);
    n
}

/// The longest prefix of `v` that fits in `budget` bytes.
fn fit_prefix(v: &Vec<char>, budget: usize) -> (r: Vec<char>)
    ensures
        r@ == fit(v@, budget as nat),
{
    let mut used: usize = 0;
    let mut i: usize = 0;
    let mut r: Vec<char> = Vec::new();
    while i < v.len() && char_utf8_width(v[i]) <= budget - used
        invariant
            i <= v.len(),
            used <= budget,
            used == utf8_len(v@.take(i as int)),
            r@ == v@.take(i as int),
        decreases v.len() - i,
    {
        proof { lemma_take_succ(v@, i as int); }
        used = used + char_utf8_width(v[i]);
        r.push(v[i]);
        assert(v@.take(i as int + 1) == v@.take(i as int).push(v@[i as int]));
        i = i + 1;
    }
    proof {
        if i < v.len() {
            lemma_take_succ(v@, i as int);
        }
        lemma_fit_len_at(v@, budget as nat, i as int);
    }
    r
}

/// The notes that remain after the first `i`.
proof fn lemma_skip_step(notes: Seq<Seq<char>>, i: int)
    requires
        0 <= i < notes.len(),
    ensures
        notes.skip(i).drop_first() == notes.skip(i + 1),
        notes.skip(i)[0] == notes[i],
{
}

/// Appending notes never makes a text that fits overflow, and leaves a text that does not fit
/// as it is.
proof fn lemma_with_notes_bound(out: Seq<char>, notes: Seq<Seq<char>>, max: nat)
    ensures
        utf8_len(out) <= max ==> utf8_len(with_notes(out, notes, max)) <= max,
        utf8_len(out) > max ==> with_notes(out, notes, max) == out,
    decreases notes.len(),
{
    if notes.len() > 0 {
        let next = out + sep() + trim(notes[0]);
        lemma_utf8_len_concat(out, sep());
        lemma_utf8_len_concat(out + sep(), trim(notes[0]));
        if utf8_len(next) <= max {
            lemma_with_notes_bound(next, notes.drop_first(), max);
        }
    }
}

/// Assembles the system prompt from SOUL, USER, MEMORY and the recent daily notes; the result
/// never exceeds `max_len` bytes for any input. Whole daily notes are appended in order while they fit; the
/// first note that does not fit and every note after it are dropped. A base that is itself
/// too long is cut at the last character boundary within `max_len` bytes.
pub fn build_system_prompt(soul: &str, user: &str, memory: &str, daily_notes: &[String], max_len: usize) -> (r: String)
    requires
        utf8_len(prompt_base(soul@, user@, memory@)) + notes_cost(daily_notes@.map_values(|s: String| s@)) <= usize::MAX,
    ensures
        r@ == system_prompt(soul@, user@, memory@, daily_notes@.map_values(|s: String| s@), max_len as nat),
        utf8_len(prompt_base(soul@, user@, memory@)) <= max_len ==>
            r@ == with_notes(prompt_base(soul@, user@, memory@), daily_notes@.map_values(|s: String| s@), max_len as nat),
        utf8_len(prompt_base(soul@, user@, memory@)) > max_len ==>
            r@ == fit(prompt_base(soul@, user@, memory@), max_len as nat),
        utf8_len(r@) <= max_len,
{
    let ghost notes = daily_notes@.map_values(|s: String| s@);
    let ghost base = prompt_base(soul@, user@, memory@);
    let mut out = trim_str(soul);
    out.push('\n');
    out.push('\n');
    let u = trim_str(user);
    extend_chars(&mut out, &u);
    out.push('\n');
    out.push('\n');
    let m = trim_str(memory);
    extend_chars(&mut out, &m);
    assert(out@ =~= base);
    let mut out_len = utf8_len_of(&out);
    assert(notes.skip(0) =~= notes);
    let mut i: usize = 0;
    let mut done = false;
    while i < daily_notes.len() && !done
        invariant
            i <= daily_notes.len(),
            notes == daily_notes@.map_values(|s: String| s@),
            out_len == utf8_len(out@),
            !done ==> out_len + notes_cost(notes.skip(i as int)) <= usize::MAX,
            !done ==> with_notes(base, notes, max_len as nat) == with_notes(out@, notes.skip(i as int), max_len as nat),
            done ==> with_notes(base, notes, max_len as nat) == out@,
            utf8_len(base) <= max_len ==> out_len <= max_len,
            utf8_len(base) > max_len ==> out@ == base,
        decreases daily_notes.len() - i + (if done { 0int } else { 1int }),
    {
        proof { lemma_skip_step(notes, i as int); }
        let note = trim_str(daily_notes[i].as_str());
        assert(note@ == trim(notes[i as int]));
        let ghost o0 = out@;
        let ghost next = o0 + sep() + note@;
        proof {
            lemma_utf8_len_concat(o0, sep());
            lemma_utf8_len_concat(o0 + sep(), note@);
            assert(utf8_len(sep()) == 2) by {
                lemma_utf8_len_push(seq!['\n'], '\n');
                lemma_utf8_len_push(Seq::<char>::empty(), '\n');
                assert(Seq::<char>::empty().push('\n') == seq!['\n']);
                assert(seq!['\n'].push('\n') == sep());
            }
        }
        let note_len = utf8_len_of(&note);
        if out_len + 2 + note_len <= max_len {
            out.push('\n');
            out.push('\n');
            extend_chars(&mut out, &note);
            assert(out@ == next);
            out_len = out_len + 2 + note_len;
            i = i + 1;
        } else {
            done = true;
        }
    }
    proof {
        if !done {
            assert(notes.skip(i as int) == Seq::<Seq<char>>::empty());
        }
        lemma_with_notes_bound(base, notes, max_len as nat);
    }
    let result = if out_len > max_len {
        let cut = fit_prefix(&out, max_len);
        proof {
            lemma_fit_within(out@, max_len as nat);
            if fit_len(out@, max_len as nat) == 0 {
                assert(out@.take(0) =~= Seq::<char>::empty());
            }
        }
        cut
    } else {
        proof {
            assert(out@.take(out@.len() as int) == out@);
            assert(fit_len(out@, max_len as nat) == out@.len());
        }
        out
    };
    chars_to_string(&result)
}

/// Every note appended, in order, each trimmed and after a blank-line separator.
pub open spec fn joined(out: Seq<char>, notes: Seq<Seq<char>>) -> Seq<char>
    decreases notes.len(),
{
    if notes.len() == 0 {
        out
    } else {
        joined(out + sep() + trim(notes[0]), notes.drop_first())
    }
}

/// Appending notes never shortens a text.
proof fn lemma_joined_grows(out: Seq<char>, notes: Seq<Seq<char>>)
    ensures
        utf8_len(out) <= utf8_len(joined(out, notes)),
    decreases notes.len(),
{
    if notes.len() > 0 {
        let next = out + sep() + trim(notes[0]);
        lemma_utf8_len_concat(out, sep());
        lemma_utf8_len_concat(out + sep(), trim(notes[0]));
        lemma_joined_grows(next, notes.drop_first());
    }
}

/// A text within the budget is kept whole.
proof fn lemma_fit_whole(s: Seq<char>, budget: nat)
    requires
        utf8_len(s) <= budget,
    ensures
        fit(s, budget) == s,
{
    assert(s.take(s.len() as int) =~= s);
}

/// When every note fits, every note is appended.
proof fn lemma_with_notes_all_fit(out: Seq<char>, notes: Seq<Seq<char>>, max: nat)
    requires
        utf8_len(joined(out, notes)) <= max,
    ensures
        with_notes(out, notes, max) == joined(out, notes),
    decreases notes.len(),
{
    if notes.len() > 0 {
        let next = out + sep() + trim(notes[0]);
        lemma_joined_grows(next, notes.drop_first());
        lemma_with_notes_all_fit(next, notes.drop_first(), max);
    }
}

/// When the base and every daily note (each trimmed, after a blank line) fit in `max` bytes,
/// the prompt is exactly that text: all notes appear, in order.
pub proof fn lemma_prompt_all_notes_fit(soul: Seq<char>, user: Seq<char>, memory: Seq<char>, notes: Seq<Seq<char>>, max: nat)
    requires
        utf8_len(joined(prompt_base(soul, user, memory), notes)) <= max,
    ensures
        system_prompt(soul, user, memory, notes, max) == joined(prompt_base(soul, user, memory), notes),
{
    lemma_with_notes_all_fit(prompt_base(soul, user, memory), notes, max);
    lemma_fit_whole(joined(prompt_base(soul, user, memory), notes), max);
}

/// Notes are kept whole and from the front of the list: the text after the notes is the base
/// with the first `j` notes for some `j`, and when notes were left out, adding the next one
/// would have gone over `max` bytes.
pub proof fn lemma_notes_prefix_kept(out: Seq<char>, notes: Seq<Seq<char>>, max: nat)
    ensures
        exists|j: int| #![trigger notes.take(j)]
            0 <= j <= notes.len()
            && with_notes(out, notes, max) == joined(out, notes.take(j))
            && (j < notes.len() ==> utf8_len(joined(out, notes.take(j + 1))) > max),
    decreases notes.len(),
{
    if notes.len() == 0 {
        assert(notes.take(0) =~= notes);
        assert(with_notes(out, notes, max) == joined(out, notes.take(0)));
    } else {
        let next = out + sep() + trim(notes[0]);
        let rest = notes.drop_first();
        if utf8_len(next) <= max {
            lemma_notes_prefix_kept(next, rest, max);
            let k = choose|k: int| #![trigger rest.take(k)]
                0 <= k <= rest.len()
                && with_notes(next, rest, max) == joined(next, rest.take(k))
                && (k < rest.len() ==> utf8_len(joined(next, rest.take(k + 1))) > max);
            assert(notes.take(k + 1).drop_first() =~= rest.take(k));
            assert(notes.take(k + 1)[0] == notes[0]);
            assert(joined(out, notes.take(k + 1)) == joined(next, rest.take(k)));
            if k < rest.len() {
                assert(notes.take(k + 2).drop_first() =~= rest.take(k + 1));
                assert(notes.take(k + 2)[0] == notes[0]);
                assert(joined(out, notes.take(k + 2)) == joined(next, rest.take(k + 1)));
            }
            assert(with_notes(out, notes, max) == joined(out, notes.take(k + 1)));
        } else {
            assert(notes.take(0) =~= Seq::<Seq<char>>::empty());
            assert(with_notes(out, notes, max) == joined(out, notes.take(0)));
            assert(notes.take(1).drop_first() =~= Seq::<Seq<char>>::empty());
            assert(notes.take(1)[0] == notes[0]);
            assert(joined(out, notes.take(1)) == joined(next, Seq::<Seq<char>>::empty()));
        }
    }
}

} // verus!

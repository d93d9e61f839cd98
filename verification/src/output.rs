use vstd::prelude::*;
use vstd::string::StringExecFns;

use crate::strutil::{
    chars_to_string, contains_at, contains_seq, ends_with, is_whitespace,
    lemma_contains_at_into_subrange, lemma_not_contains_subrange, spec_is_whitespace, str_to_chars,
    vec_ends_with,
};

verus! {

/// Turn-opening delimiter of the chat template.
pub open spec fn marker_im_start() -> Seq<char> {
    "<|im_start|>"@
}

/// Turn-closing delimiter of the chat template.
pub open spec fn marker_im_end() -> Seq<char> {
    "<|im_end|>"@
}

/// End-of-text marker.
pub open spec fn marker_endoftext() -> Seq<char> {
    "<|endoftext|>"@
}

/// System-role delimiter.
pub open spec fn marker_system() -> Seq<char> {
    "<|system|>"@
}

/// User-role delimiter.
pub open spec fn marker_user() -> Seq<char> {
    "<|user|>"@
}

/// Assistant-role delimiter.
pub open spec fn marker_assistant() -> Seq<char> {
    "<|assistant|>"@
}

/// The fixed set of architecture-specific control markers that are
/// stripped from generated text.
pub open spec fn spec_markers() -> Seq<Seq<char>> {
    seq![
        marker_im_start(),
        marker_im_end(),
        marker_endoftext(),
        marker_system(),
        marker_user(),
        marker_assistant(),
    ]
}

/// No control marker occurs anywhere in `s`.
pub open spec fn clean(s: Seq<char>) -> bool {
    forall|j: int| 0 <= j < spec_markers().len() ==> !contains_seq(s, #[trigger] spec_markers()[j])
}

/// One cleanup step: append `c`, then drop the control marker this
/// completes, if any.
pub open spec fn strip_step(acc: Seq<char>, c: char) -> Seq<char> {
    let t = acc.push(c);
    if ends_with(t, marker_im_start()) {
        t.take(t.len() - marker_im_start().len())
    } else if ends_with(t, marker_im_end()) {
        t.take(t.len() - marker_im_end().len())
    } else if ends_with(t, marker_endoftext()) {
        t.take(t.len() - marker_endoftext().len())
    } else if ends_with(t, marker_system()) {
        t.take(t.len() - marker_system().len())
    } else if ends_with(t, marker_user()) {
        t.take(t.len() - marker_user().len())
    } else if ends_with(t, marker_assistant()) {
        t.take(t.len() - marker_assistant().len())
    } else {
        t
    }
}

/// The text with every control marker removed: each character is
/// appended in turn, and a marker is dropped the moment it completes.
pub open spec fn strip_markers(s: Seq<char>) -> Seq<char>
    decreases s.len(),
{
    if s.len() == 0 {
        Seq::empty()
    } else {
        strip_step(strip_markers(s.drop_last()), s.last())
    }
}

/// The text without its leading whitespace.
pub open spec fn trim_front(s: Seq<char>) -> Seq<char>
    decreases s.len(),
{
    if s.len() > 0 && spec_is_whitespace(s.first()) {
        trim_front(s.drop_first())
    } else {
        s
    }
}

/// The text without its trailing whitespace.
pub open spec fn trim_back(s: Seq<char>) -> Seq<char>
    decreases s.len(),
{
    if s.len() > 0 && spec_is_whitespace(s.last()) {
        trim_back(s.drop_last())
    } else {
        s
    }
}

/// The text without surrounding whitespace.
pub open spec fn spec_trim(s: Seq<char>) -> Seq<char> {
    trim_back(trim_front(s))
}

/// The unconditional post-processing applied to generated text: control
/// markers stripped, then surrounding whitespace trimmed.
pub open spec fn spec_sanitize(s: Seq<char>) -> Seq<char> {
    spec_trim(strip_markers(s))
}

/// Drops `pat` from the end of `out` if it is a suffix.
fn strip_one(out: &mut Vec<char>, pat: &str) -> (r: bool)
    ensures
        r == ends_with(old(out)@, pat@),
        r ==> final(out)@ == old(out)@.take(old(out)@.len() - pat@.len()),
        !r ==> final(out)@ == old(out)@,
{
    let p = str_to_chars(pat);
    if vec_ends_with(out, &p) {
        let keep: usize = out.len() - p.len();
        out.truncate(keep);
        true
    } else {
        false
    }
}

/// Removes every control marker from the text.
pub fn strip_control_markers(input: &Vec<char>) -> (r: Vec<char>)
    ensures
        r@ == strip_markers(input@),
{
    let mut out: Vec<char> = Vec::new();
    let mut i: usize = 0;
    while i < input.len()
        invariant
            i <= input.len(),
            out@ == strip_markers(input@.take(i as int)),
        decreases input.len() - i,
    {
        out.push(input[i]);
        if !strip_one(&mut out, "<|im_start|>") {
            if !strip_one(&mut out, "<|im_end|>") {
                if !strip_one(&mut out, "<|endoftext|>") {
                    if !strip_one(&mut out, "<|system|>") {
                        if !strip_one(&mut out, "<|user|>") {
                            strip_one(&mut out, "<|assistant|>");
                        }
                    }
                }
            }
        }
        proof {
            assert(input@.take(i + 1).drop_last() =~= input@.take(i as int));
            assert(input@.take(i + 1).last() == input@[i as int]);
        }
        i += 1;
    }
    proof {
        assert(input@.take(input@.len() as int) =~= input@);
    }
    out
}

/// `trim_front` removes exactly the leading run of whitespace.
proof fn lemma_trim_front_skip(s: Seq<char>, a: int)
    requires
        0 <= a <= s.len(),
        forall|k: int| 0 <= k < a ==> spec_is_whitespace(s[k]),
        a == s.len() || !spec_is_whitespace(s[a]),
    ensures
        trim_front(s) == s.skip(a),
    decreases a,
{
    if a == 0 {
        assert(s.skip(0) =~= s);
    } else {
        lemma_trim_front_skip(s.drop_first(), a - 1);
        assert(s.drop_first().skip(a - 1) =~= s.skip(a));
    }
}

/// `trim_back` removes exactly the trailing run of whitespace.
proof fn lemma_trim_back_take(s: Seq<char>, b: int)
    requires
        0 <= b <= s.len(),
        forall|k: int| b <= k < s.len() ==> spec_is_whitespace(s[k]),
        b == 0 || !spec_is_whitespace(s[b - 1]),
    ensures
        trim_back(s) == s.take(b),
    decreases s.len() - b,
{
    if b == s.len() {
        assert(s.take(b) =~= s);
    } else {
        lemma_trim_back_take(s.drop_last(), b);
        assert(s.drop_last().take(b) =~= s.take(b));
    }
}

/// Removes surrounding whitespace from the text.
pub fn trim_chars(v: &Vec<char>) -> (r: Vec<char>)
    ensures
        r@ == spec_trim(v@),
{
    let mut start: usize = 0;
    while start < v.len() && is_whitespace(v[start])
        invariant
            start <= v.len(),
            forall|k: int| 0 <= k < start ==> spec_is_whitespace(v@[k]),
        decreases v.len() - start,
    {
        start += 1;
    }
    let mut end: usize = v.len();
    while end > start && is_whitespace(v[end - 1])
        invariant
            start <= end <= v.len(),
            forall|k: int| end <= k < v.len() ==> spec_is_whitespace(v@[k]),
        decreases end,
    {
        end -= 1;
    }
    let mut out: Vec<char> = Vec::new();
    let mut i: usize = start;
    while i < end
        invariant
            start <= i <= end <= v.len(),
            out@ == v@.subrange(start as int, i as int),
        decreases end - i,
    {
        out.push(v[i]);
        proof {
            assert(v@.subrange(start as int, i + 1) =~= v@.subrange(start as int, i as int).push(
                v@[i as int],
            ));
        }
        i += 1;
    }
    proof {
        lemma_trim_front_skip(v@, start as int);
        lemma_trim_back_take(v@.skip(start as int), end - start);
        assert(v@.skip(start as int).take(end - start) =~= v@.subrange(start as int, end as int));
    }
    out
}

/// The markers are the six fixed strings, none of them empty.
proof fn lemma_marker_facts()
    ensures
        spec_markers().len() == 6,
        spec_markers()[0] == marker_im_start(),
        spec_markers()[1] == marker_im_end(),
        spec_markers()[2] == marker_endoftext(),
        spec_markers()[3] == marker_system(),
        spec_markers()[4] == marker_user(),
        spec_markers()[5] == marker_assistant(),
        marker_im_start().len() == 12,
        marker_im_end().len() == 10,
        marker_endoftext().len() == 13,
        marker_system().len() == 10,
        marker_user().len() == 8,
        marker_assistant().len() == 13,
{
    reveal_strlit("<|im_start|>");
    reveal_strlit("<|im_end|>");
    reveal_strlit("<|endoftext|>");
    reveal_strlit("<|system|>");
    reveal_strlit("<|user|>");
    reveal_strlit("<|assistant|>");
}

/// A clean text stays clean when restricted to a window.
proof fn lemma_clean_subrange(s: Seq<char>, a: int, b: int)
    requires
        clean(s),
        0 <= a <= b <= s.len(),
    ensures
        clean(s.subrange(a, b)),
{
    assert forall|j: int| 0 <= j < spec_markers().len() implies !contains_seq(
        s.subrange(a, b),
        #[trigger] spec_markers()[j],
    ) by {
        lemma_not_contains_subrange(s, spec_markers()[j], a, b);
    }
}

/// One cleanup step keeps the text clean: appending a character can only
/// complete a marker at the very end, and a completed marker is dropped.
proof fn lemma_strip_step_clean(acc: Seq<char>, c: char)
    requires
        clean(acc),
    ensures
        clean(strip_step(acc, c)),
{
    lemma_marker_facts();
    let t = acc.push(c);
    let r = strip_step(acc, c);
    if ends_with(t, marker_im_start()) || ends_with(t, marker_im_end()) || ends_with(
        t,
        marker_endoftext(),
    ) || ends_with(t, marker_system()) || ends_with(t, marker_user()) || ends_with(
        t,
        marker_assistant(),
    ) {
        // A marker was completed and dropped: the remainder is a prefix
        // of the text before the character arrived.
        assert(r.len() <= acc.len());
        assert(r =~= acc.subrange(0, r.len() as int));
        lemma_clean_subrange(acc, 0, r.len() as int);
    } else {
        // Nothing was dropped: any marker occurrence in the new text
        // either sat wholly inside the old text or ends at the new last
        // character, and both are excluded.
        assert(acc =~= t.subrange(0, acc.len() as int));
        assert forall|j: int| 0 <= j < spec_markers().len() implies !contains_seq(
            t,
            #[trigger] spec_markers()[j],
        ) by {
            let m = spec_markers()[j];
            if contains_seq(t, m) {
                let i = choose|i: int| contains_at(t, m, i);
                if i + m.len() <= acc.len() {
                    lemma_contains_at_into_subrange(t, m, 0, acc.len() as int, i);
                    assert(contains_at(acc, m, i));
                } else {
                    assert(i + m.len() == t.len());
                    assert(ends_with(t, m));
                }
            }
        }
    }
}

/// Stripping leaves no control marker anywhere in the text.
pub proof fn lemma_strip_markers_clean(s: Seq<char>)
    ensures
        clean(strip_markers(s)),
    decreases s.len(),
{
    lemma_marker_facts();
    if s.len() == 0 {
        assert forall|j: int| 0 <= j < spec_markers().len() implies !contains_seq(
            Seq::<char>::empty(),
            #[trigger] spec_markers()[j],
        ) by {
            assert(forall|i: int| !contains_at(Seq::<char>::empty(), spec_markers()[j], i));
        }
    } else {
        lemma_strip_markers_clean(s.drop_last());
        lemma_strip_step_clean(strip_markers(s.drop_last()), s.last());
    }
}

/// Trimming from the front keeps the text clean.
proof fn lemma_trim_front_clean(s: Seq<char>)
    requires
        clean(s),
    ensures
        clean(trim_front(s)),
    decreases s.len(),
{
    if s.len() > 0 && spec_is_whitespace(s.first()) {
        lemma_clean_subrange(s, 1, s.len() as int);
        assert(s.drop_first() =~= s.subrange(1, s.len() as int));
        lemma_trim_front_clean(s.drop_first());
    }
}

/// Trimming from the back keeps the text clean.
proof fn lemma_trim_back_clean(s: Seq<char>)
    requires
        clean(s),
    ensures
        clean(trim_back(s)),
    decreases s.len(),
{
    if s.len() > 0 && spec_is_whitespace(s.last()) {
        lemma_clean_subrange(s, 0, s.len() - 1);
        assert(s.drop_last() =~= s.subrange(0, s.len() - 1));
        lemma_trim_back_clean(s.drop_last());
    }
}

/// A front-trimmed text does not start with whitespace.
proof fn lemma_trim_front_first(s: Seq<char>)
    ensures
        trim_front(s).len() > 0 ==> !spec_is_whitespace(trim_front(s).first()),
    decreases s.len(),
{
    if s.len() > 0 && spec_is_whitespace(s.first()) {
        lemma_trim_front_first(s.drop_first());
    }
}

/// A back-trimmed text does not end with whitespace.
proof fn lemma_trim_back_last(s: Seq<char>)
    ensures
        trim_back(s).len() > 0 ==> !spec_is_whitespace(trim_back(s).last()),
    decreases s.len(),
{
    if s.len() > 0 && spec_is_whitespace(s.last()) {
        lemma_trim_back_last(s.drop_last());
    }
}

/// Trimming from the back does not change the first character.
proof fn lemma_trim_back_first(s: Seq<char>)
    ensures
        trim_back(s).len() > 0 ==> s.len() > 0 && trim_back(s).first() == s.first(),
    decreases s.len(),
{
    if s.len() > 0 && spec_is_whitespace(s.last()) {
        lemma_trim_back_first(s.drop_last());
    }
}

/// Sanitized generation text is clean: for every raw text, the result of
/// the unconditional post-processing contains none of the control
/// markers and has no leading or trailing whitespace.
pub proof fn lemma_sanitize_clean(s: Seq<char>)
    ensures
        clean(spec_sanitize(s)),
        spec_sanitize(s).len() > 0 ==> !spec_is_whitespace(spec_sanitize(s).first()),
        spec_sanitize(s).len() > 0 ==> !spec_is_whitespace(spec_sanitize(s).last()),
{
    let stripped = strip_markers(s);
    lemma_strip_markers_clean(s);
    lemma_trim_front_clean(stripped);
    lemma_trim_back_clean(trim_front(stripped));
    lemma_trim_front_first(stripped);
    lemma_trim_back_last(trim_front(stripped));
    lemma_trim_back_first(trim_front(stripped));
}

/// The concatenation of the first `n` pieces that detokenized
/// successfully, in order.
pub open spec fn concat_pieces(pieces: Seq<Option<String>>, n: int) -> Seq<char>
    decreases n,
{
    if n <= 0 {
        Seq::empty()
    } else {
        concat_pieces(pieces, n - 1) + (match pieces[n - 1] {
            Some(s) => s@,
            None => Seq::empty(),
        })
    }
}

/// How many of the first `n` pieces failed to detokenize.
pub open spec fn skipped_pieces(pieces: Seq<Option<String>>, n: int) -> int
    decreases n,
{
    if n <= 0 {
        0
    } else {
        skipped_pieces(pieces, n - 1) + (if pieces[n - 1] is None {
            1int
        } else {
            0int
        })
    }
}

/// The text of one finished generation, and how many tokens were skipped
/// because they failed to detokenize.
pub struct GenerationOutput {
    /// The cleaned response text.
    pub text: String,
    /// Tokens whose detokenization failed; skipped, not fatal.
    pub skipped: usize,
}

/// Concatenates per-token text pieces.  A piece that failed to
/// detokenize (`None`) is skipped and counted rather than aborting the
/// response: the result is best-effort over the successful pieces.
pub fn assemble_pieces(pieces: &Vec<Option<String>>) -> (r: (String, usize))
    ensures
        r.0@ == concat_pieces(pieces@, pieces@.len() as int),
        r.1 == skipped_pieces(pieces@, pieces@.len() as int),
{
    let mut text = String::new();
    let mut skipped: usize = 0;
    let mut i: usize = 0;
    while i < pieces.len()
        invariant
            i <= pieces@.len(),
            text@ == concat_pieces(pieces@, i as int),
            skipped == skipped_pieces(pieces@, i as int),
            skipped <= i,
        decreases pieces@.len() - i,
    {
        match &pieces[i] {
            Some(piece) => {
                text.append(piece.as_str());
            },
            None => {
                skipped += 1;
            },
        }
        i += 1;
    }
    (text, skipped)
}

/// Builds the final response from the per-token text pieces: skipped
/// pieces are counted, the rest are concatenated, control markers are
/// stripped, and surrounding whitespace is trimmed.
pub fn finalize_output(pieces: &Vec<Option<String>>) -> (r: GenerationOutput)
    ensures
        r.text@ == spec_sanitize(concat_pieces(pieces@, pieces@.len() as int)),
        r.skipped == skipped_pieces(pieces@, pieces@.len() as int),
{
    let (raw, skipped) = assemble_pieces(pieces);
    let chars = str_to_chars(raw.as_str());
    let stripped = strip_control_markers(&chars);
    let trimmed = trim_chars(&stripped);
    GenerationOutput { text: chars_to_string(&trimmed), skipped }
}

} // verus!

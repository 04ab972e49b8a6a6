//! The typing cursor: bounded, word-aware chunks of a fixed text,
//! consumed sequentially with humanlike per-character pauses. The
//! persisted position makes consecutive chunks continue exactly where
//! the previous one stopped, wrapping to the beginning once the whole
//! text has been typed.

use vstd::prelude::*;
use crate::sampling::{random_u64_in, random_usize_in};

verus! {

/// Word and sentence boundary characters: a chunk prefers to end right
/// after one of these.
pub open spec fn is_boundary_char(c: char) -> bool {
    c == ' ' || c == '.' || c == ',' || c == '!' || c == '?' || c == '\n'
}

/// Executable mirror of `is_boundary_char`.
pub fn boundary_char(c: char) -> (r: bool)
    ensures
        r == is_boundary_char(c),
{
    c == ' ' || c == '.' || c == ',' || c == '!' || c == '?' || c == '\n'
}

/// One past the last index the chunk scan may reach when it starts at
/// `start` with the drawn cap `cap`: the cap clipped to the remaining
/// text.
pub open spec fn chunk_limit(len: int, start: int, cap: int) -> int {
    if cap <= len - start {
        start + cap
    } else {
        len
    }
}

/// Exactly characterizes where a chunk scanned from `start` ends: the
/// scan runs toward the clipped cap, but once at least five characters
/// are taken it stops right after the first boundary character it
/// meets.
pub open spec fn is_chunk_end(text: Seq<char>, start: int, cap: int, end: int) -> bool {
    let limit = chunk_limit(text.len() as int, start, cap);
    &&& start < end <= limit
    &&& (forall|i: int| start + 5 <= i < end - 1 ==> !is_boundary_char(#[trigger] text[i]))
    &&& (end == limit || (start + 5 <= end - 1 && is_boundary_char(text[end - 1])))
}

/// Where the next chunk starts: the persisted position, wrapped to the
/// beginning of the text once the position has reached or passed its
/// end.
pub open spec fn wrapped_start(len: int, position: int) -> int {
    if position >= len {
        0
    } else {
        position
    }
}

/// Scans one chunk: from `start`, up to `cap` characters, stopping
/// early only at a boundary character once at least five characters are
/// taken.
pub fn chunk_end(text: &Vec<char>, start: usize, cap: usize) -> (end: usize)
    requires
        start < text@.len(),
        cap >= 1,
    ensures
        is_chunk_end(text@, start as int, cap as int, end as int),
{
    let len = text.len();
    let max_chars = if cap <= len - start {
        cap
    } else {
        len - start
    };
    let limit = start + max_chars;
    let mut end = start;
    let mut i = start;
    let mut stopped = false;
    while i < limit && !stopped
        invariant
            start < limit <= text@.len(),
            limit == chunk_limit(text@.len() as int, start as int, cap as int),
            start <= i <= limit,
            i == start ==> end == start,
            i > start ==> end == i,
            !stopped ==> forall|k: int| start + 5 <= k < i ==> !is_boundary_char(#[trigger] text@[k]),
            stopped ==> i > start && end == i && start + 5 <= i - 1 && is_boundary_char(text@[i - 1]),
            stopped ==> forall|k: int| start + 5 <= k < i - 1 ==> !is_boundary_char(#[trigger] text@[k]),
        decreases limit - i + (if stopped { 0int } else { 1int }),
    {
        end = i + 1;
        if i - start >= 5 && boundary_char(text[i]) {
            stopped = true;
        }
        i = i + 1;
    }
    end
}

/// Takes the next chunk of the text: wraps the persisted position, then
/// scans to the chunk's end. Returns the chunk's start and end indices.
pub fn next_chunk(text: &Vec<char>, position: usize, cap: usize) -> (r: (usize, usize))
    requires
        text@.len() >= 1,
        cap >= 1,
    ensures
        r.0 as int == wrapped_start(text@.len() as int, position as int),
        is_chunk_end(text@, r.0 as int, cap as int, r.1 as int),
        r.0 < r.1 <= text@.len(),
{
    let start = if position >= text.len() {
        0
    } else {
        position
    };
    let end = chunk_end(text, start, cap);
    (start, end)
}

/// Smallest extra pause after typing `c`, by character class.
pub open spec fn bonus_min(c: char) -> int {
    if c == '.' || c == '!' || c == '?' {
        100
    } else if c == ',' {
        50
    } else if c == '\n' {
        200
    } else {
        0
    }
}

/// Largest extra pause after typing `c`, by character class.
pub open spec fn bonus_max(c: char) -> int {
    if c == '.' || c == '!' || c == '?' {
        299
    } else if c == ',' {
        149
    } else if c == '\n' {
        399
    } else if c == ' ' {
        49
    } else {
        0
    }
}

/// The randomized pause after typing `c` lies in this envelope: a base
/// of `[50, 149]` milliseconds plus the class-dependent bonus.
pub open spec fn delay_in_range(c: char, d: int) -> bool {
    50 + bonus_min(c) <= d <= 149 + bonus_max(c)
}

/// Draws the pause that follows one typed character: a humanlike base
/// delay plus a bonus that is longest after line breaks and sentence
/// enders, medium after commas, slight after spaces and absent
/// otherwise.
pub fn char_delay_ms(c: char) -> (d: u64)
    ensures
        delay_in_range(c, d as int),
{
    let base = random_u64_in(50, 149);
    let bonus: u64 = if c == '.' || c == '!' || c == '?' {
        random_u64_in(100, 299)
    } else if c == ',' {
        random_u64_in(50, 149)
    } else if c == '\n' {
        random_u64_in(200, 399)
    } else if c == ' ' {
        random_u64_in(0, 49)
    } else {
        0
    };
    base + bonus
}

/// The fixed fallback alphabet, typed when no text is configured.
pub open spec fn is_fallback_char(c: char) -> bool {
    c == ' ' || c == 'a' || c == 'e' || c == 'i' || c == 'o' || c == 'u'
}

/// Draws one character from the fallback alphabet of a space and the
/// five vowels.
pub fn fallback_char() -> (c: char)
    ensures
        is_fallback_char(c),
{
    let idx = random_usize_in(0, 5);
    if idx == 0 {
        ' '
    } else if idx == 1 {
        'a'
    } else if idx == 2 {
        'e'
    } else if idx == 3 {
        'i'
    } else if idx == 4 {
        'o'
    } else {
        'u'
    }
}

/// One planned typing action: the chunk's bounds in the text, the
/// characters to emit in order, and the pause after each of them.
#[derive(Clone, Debug)]
pub struct TypedChunk {
    pub start: usize,
    pub end: usize,
    pub chars: Vec<char>,
    pub delays: Vec<u64>,
}

/// Plans the next typing action over `text` from the persisted
/// `position`: draws a chunk cap in `[5, 20]`, scans the chunk and
/// draws each character's pause. The caller persists `end` as the new
/// position.
pub fn take_chunk(text: &Vec<char>, position: usize) -> (r: TypedChunk)
    requires
        text@.len() >= 1,
    ensures
        r.start as int == wrapped_start(text@.len() as int, position as int),
        capped_chunk(text@, r.start as int, r.end as int),
        r.start < r.end <= text@.len(),
        r.chars@ == text@.subrange(r.start as int, r.end as int),
        r.delays@.len() == r.chars@.len(),
        forall|k: int| 0 <= k < r.delays@.len() ==> delay_in_range(r.chars@[k], #[trigger] r.delays@[k] as int),
{
    let cap = random_usize_in(5, 20);
    let (start, end) = next_chunk(text, position, cap);
    let mut chars: Vec<char> = Vec::new();
    let mut delays: Vec<u64> = Vec::new();
    let mut i = start;
    while i < end
        invariant
            start <= i <= end <= text@.len(),
            chars@ == text@.subrange(start as int, i as int),
            delays@.len() == chars@.len(),
            forall|k: int| 0 <= k < delays@.len() ==> delay_in_range(chars@[k], #[trigger] delays@[k] as int),
        decreases end - i,
    {
        let c = text[i];
        chars.push(c);
        delays.push(char_delay_ms(c));
        i = i + 1;
        proof {
            assert(chars@ =~= text@.subrange(start as int, i as int));
        }
    }
    proof {
        assert(5 <= cap as int <= 20 && is_chunk_end(text@, start as int, cap as int, end as int));
        assert(capped_chunk(text@, start as int, end as int));
    }
    TypedChunk { start, end, chars, delays }
}

/// Holds when scanning a chunk from `a` under some cap can end at `b`.
pub open spec fn ends_some_chunk(text: Seq<char>, a: int, b: int) -> bool {
    exists|cap: int| cap >= 1 && #[trigger] is_chunk_end(text, a, cap, b)
}

/// Holds when scanning a chunk from `start` under some cap drawn from
/// `[5, 20]` ends at `end`.
pub open spec fn capped_chunk(text: Seq<char>, start: int, end: int) -> bool {
    exists|cap: int| 5 <= cap <= 20 && #[trigger] is_chunk_end(text, start, cap, end)
}

/// The chunks between successive cut points, concatenated in order.
pub open spec fn concat_chunks(text: Seq<char>, cuts: Seq<int>) -> Seq<char>
    decreases cuts.len(),
{
    if cuts.len() <= 1 {
        Seq::empty()
    } else {
        text.subrange(cuts[0], cuts[1]) + concat_chunks(text, cuts.drop_first())
    }
}

proof fn lemma_concat_chunks_spans(text: Seq<char>, cuts: Seq<int>)
    requires
        cuts.len() >= 1,
        forall|j: int| 0 <= j < cuts.len() ==> 0 <= #[trigger] cuts[j] <= text.len(),
        forall|j: int| 0 <= j < cuts.len() - 1 ==> #[trigger] cuts[j] <= cuts[j + 1],
    ensures
        concat_chunks(text, cuts) == text.subrange(cuts[0], cuts.last()),
        cuts[0] <= cuts.last(),
    decreases cuts.len(),
{
    if cuts.len() == 1 {
        assert(concat_chunks(text, cuts) =~= text.subrange(cuts[0], cuts.last()));
    } else {
        let rest = cuts.drop_first();
        assert(forall|j: int| 0 <= j < rest.len() ==> 0 <= #[trigger] rest[j] <= text.len());
        assert(forall|j: int| 0 <= j < rest.len() - 1 ==> #[trigger] rest[j] <= rest[j + 1]) by {
            assert(forall|j: int| 0 <= j < rest.len() - 1 ==> #[trigger] rest[j] == cuts[j + 1]
                && rest[j + 1] == cuts[j + 2]);
        }
        lemma_concat_chunks_spans(text, rest);
        assert(cuts.last() == rest.last());
        assert(text.subrange(cuts[0], cuts[1]) + text.subrange(cuts[1], cuts.last()) =~= text.subrange(
            cuts[0],
            cuts.last(),
        ));
    }
}

/// Chunks taken back to back rebuild the text: when successive cut
/// points each end a chunk begun at the previous one, run from the
/// text's beginning to its end, the concatenation of the chunks between
/// them is exactly the original text, in order.
pub proof fn lemma_chunks_rebuild_text(text: Seq<char>, cuts: Seq<int>)
    requires
        cuts.len() >= 1,
        cuts[0] == 0,
        cuts.last() == text.len(),
        forall|j: int| 0 <= j < cuts.len() - 1 ==> ends_some_chunk(text, #[trigger] cuts[j], cuts[j + 1]),
    ensures
        concat_chunks(text, cuts) == text,
{
    assert forall|j: int| 0 <= j < cuts.len() - 1 implies #[trigger] cuts[j] <= cuts[j + 1] by {
        let cap = choose|cap: int| cap >= 1 && #[trigger] is_chunk_end(text, cuts[j], cap, cuts[j + 1]);
    }
    assert forall|j: int| 0 <= j < cuts.len() implies 0 <= #[trigger] cuts[j] <= text.len() by {
        lemma_cut_bounds(text, cuts, j);
    }
    lemma_concat_chunks_spans(text, cuts);
    assert(text.subrange(0, text.len() as int) =~= text);
}

proof fn lemma_cut_bounds(text: Seq<char>, cuts: Seq<int>, j: int)
    requires
        cuts.len() >= 1,
        cuts[0] == 0,
        cuts.last() == text.len(),
        forall|j: int| 0 <= j < cuts.len() - 1 ==> ends_some_chunk(text, #[trigger] cuts[j], cuts[j + 1]),
        0 <= j < cuts.len(),
    ensures
        0 <= cuts[j] <= text.len(),
    decreases j,
{
    if j == 0 {
    } else {
        lemma_cut_bounds(text, cuts, j - 1);
        assert(ends_some_chunk(text, cuts[j - 1], cuts[j]));
        let cap = choose|cap: int| cap >= 1 && #[trigger] is_chunk_end(text, cuts[j - 1], cap, cuts[j]);
    }
}

/// A chunk whose scanned window holds no boundary character past its
/// fifth character takes the whole window: its length is the cap
/// clipped to the remaining text.
pub proof fn lemma_unbroken_chunk_takes_window(text: Seq<char>, start: int, cap: int, end: int)
    requires
        0 <= start < text.len(),
        cap >= 1,
        is_chunk_end(text, start, cap, end),
        forall|i: int| start + 5 <= i < chunk_limit(text.len() as int, start, cap)
            ==> !is_boundary_char(#[trigger] text[i]),
    ensures
        end == chunk_limit(text.len() as int, start, cap),
        end - start == if cap <= text.len() - start {
            cap
        } else {
            text.len() - start
        },
{
    let limit = chunk_limit(text.len() as int, start, cap);
    if end != limit {
        assert(start + 5 <= end - 1 && is_boundary_char(text[end - 1]));
        assert(end - 1 < limit);
        assert(false);
    }
}

} // verus!

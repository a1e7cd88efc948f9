//! The decisions of the development-kit uploader, kept apart from its
//! serial-port and console plumbing: its configuration, its command algebra,
//! the write-bytes frame, and the choice of which 256-byte blocks of a new
//! memory image must be sent.

use crate::strutil::{is_space, spec_is_space, str_eq};
use vstd::prelude::*;

verus! {

pub struct Config {
    pub serial_rate: u32,
}

impl Config {
    pub fn default() -> (r: Config)
        ensures
            r.serial_rate == 115200,
    {
        Config { serial_rate: 115_200 }
    }
}

/// A command for the thread that owns the serial port.
#[derive(Debug)]
pub enum DevkitCommand {
    ConnectSerial(String, u32),
    WriteBytes(u16, Vec<u8>),
    End,
}

/// The three-byte header announcing a block write at `addr_high`, low byte
/// first, under the protocol's command byte.
pub fn write_bytes_frame(command: u8, addr_high: u16) -> (r: Vec<u8>)
    ensures
        r@ == seq![command, (addr_high % 256) as u8, (addr_high / 256) as u8],
{
    let mut r: Vec<u8> = Vec::new();
    r.push(command);
    r.push((addr_high % 256) as u8);
    r.push((addr_high / 256) as u8);
    proof {
        assert(r@ =~= seq![command, (addr_high % 256) as u8, (addr_high / 256) as u8]);
    }
    r
}

/// The target image padded with zeroes to a whole number of 256-byte
/// blocks.
pub open spec fn spec_padded(target: Seq<u8>) -> Seq<u8> {
    if target.len() % 256 == 0 {
        target
    } else {
        target + Seq::<u8>::new((256 - target.len() % 256) as nat, |i: int| 0u8)
    }
}

/// Whether the block starting at `i` must be sent: it runs past what the
/// device holds, or it differs from it.
pub open spec fn spec_block_differs(padded: Seq<u8>, actual: Seq<u8>, i: int) -> bool {
    i + 256 > actual.len() || padded.subrange(i, i + 256) != actual.subrange(i, i + 256)
}

/// The blocks to send, in address order: each differing block as its
/// 256-byte page index and its bytes.
pub open spec fn spec_blocks(padded: Seq<u8>, actual: Seq<u8>, i: int) -> Seq<(u16, Seq<u8>)>
    decreases padded.len() - i,
    when i >= 0
{
    if i + 256 > padded.len() {
        Seq::<(u16, Seq<u8>)>::empty()
    } else {
        let rest = spec_blocks(padded, actual, i + 256);
        if spec_block_differs(padded, actual, i) {
            seq![(((i / 256) % 0x10000) as u16, padded.subrange(i, i + 256))] + rest
        } else {
            rest
        }
    }
}

pub open spec fn blocks_view(b: Seq<(u16, Vec<u8>)>) -> Seq<(u16, Seq<u8>)> {
    b.map_values(|p: (u16, Vec<u8>)| (p.0, p.1@))
}

fn chunk_eq(padded: &Vec<u8>, actual: &Vec<u8>, i: usize) -> (r: bool)
    requires
        i + 256 <= usize::MAX,
        i + 256 <= padded@.len(),
        i + 256 <= actual@.len(),
    ensures
        r == (padded@.subrange(i as int, i + 256) == actual@.subrange(i as int, i + 256)),
{
    let mut j: usize = 0;
    while j < 256
        invariant
            j <= 256,
            i + 256 <= usize::MAX,
            i + 256 <= padded@.len(),
            i + 256 <= actual@.len(),
            forall|m: int| 0 <= m < j ==> #[trigger] padded@[i + m] == actual@[i + m],
        decreases 256 - j,
    {
        if padded[i + j] != actual[i + j] {
            proof {
                assert(padded@.subrange(i as int, i + 256)[j as int] != actual@.subrange(
                    i as int,
                    i + 256,
                )[j as int]);
            }
            return false;
        }
        j += 1;
    }
    proof {
        assert forall|m: int|
            0 <= m < 256 implies #[trigger] padded@.subrange(i as int, i + 256)[m]
                == actual@.subrange(i as int, i + 256)[m] by {
            assert(padded@[i + m] == actual@[i + m]);
        }
        assert(padded@.subrange(i as int, i + 256) =~= actual@.subrange(i as int, i + 256));
    }
    true
}

/// Pads the target image to whole 256-byte blocks and picks the blocks that
/// must be written to bring the device's memory up to date: those past the
/// end of what it holds, and those that differ from it.
pub fn plan_update(target: Vec<u8>, actual: &Vec<u8>) -> (r: (Vec<u8>, Vec<(u16, Vec<u8>)>))
    requires
        target@.len() <= usize::MAX - 256,
    ensures
        r.0@ == spec_padded(target@),
        blocks_view(r.1@) == spec_blocks(spec_padded(target@), actual@, 0),
{
    let mut padded = target;
    let ghost t0 = padded@;
    proof {
        if t0.len() % 256 != 0 {
            assert(spec_padded(t0).len() == t0.len() + (256 - t0.len() % 256));
        }
    }
    while padded.len() % 256 != 0
        invariant
            t0.len() <= usize::MAX - 256,
            spec_padded(t0) == spec_padded(padded@),
            padded@.len() <= spec_padded(t0).len(),
            spec_padded(t0).len() <= t0.len() + 255,
        decreases spec_padded(t0).len() - padded@.len(),
    {
        let ghost p0 = padded@;
        padded.push(0);
        proof {
            assert(spec_padded(p0) =~= spec_padded(padded@));
        }
    }
    proof {
        assert(spec_padded(padded@) == padded@);
    }
    let n = padded.len();
    let mut blocks: Vec<(u16, Vec<u8>)> = Vec::new();
    let mut i: usize = 0;
    proof {
        assert(blocks_view(blocks@) =~= Seq::<(u16, Seq<u8>)>::empty());
    }
    while n - i >= 256
        invariant
            n == padded@.len(),
            i % 256 == 0,
            i <= n,
            spec_blocks(padded@, actual@, 0) == blocks_view(blocks@) + spec_blocks(
                padded@,
                actual@,
                i as int,
            ),
        decreases n - i,
    {
        let alen = actual.len();
        let past_end = if alen < 256 {
            true
        } else {
            i > alen - 256
        };
        proof {
            assert(past_end == (i + 256 > actual@.len()));
        }
        let differs = past_end || !chunk_eq(&padded, actual, i);
        if differs {
            let mut chunk: Vec<u8> = Vec::new();
            let mut j: usize = 0;
            while j < 256
                invariant
                    j <= 256,
                    i + 256 <= usize::MAX,
                    i + 256 <= padded@.len(),
                    chunk@ =~= padded@.subrange(i as int, i + j),
                decreases 256 - j,
            {
                chunk.push(padded[i + j]);
                j += 1;
                proof {
                    assert(chunk@ =~= padded@.subrange(i as int, i + j));
                }
            }
            let ghost blocks_pre = blocks@;
            blocks.push((((i / 256) % 0x10000) as u16, chunk));
            proof {
                assert(blocks_view(blocks@) =~= blocks_view(blocks_pre) + seq![
                    (blocks@.last().0, blocks@.last().1@),
                ]);
                assert((blocks_view(blocks_pre) + seq![(blocks@.last().0, blocks@.last().1@)])
                    + spec_blocks(padded@, actual@, i + 256) =~= blocks_view(blocks_pre) + (seq![
                    (blocks@.last().0, blocks@.last().1@),
                ] + spec_blocks(padded@, actual@, i + 256)));
            }
        }
        i += 256;
    }
    proof {
        assert(spec_blocks(padded@, actual@, i as int) =~= Seq::<(u16, Seq<u8>)>::empty());
        assert(blocks_view(blocks@) + Seq::<(u16, Seq<u8>)>::empty() =~= blocks_view(blocks@));
    }
    (padded, blocks)
}

/// What the uploader's console loop does with one input line.
#[derive(Debug)]
pub enum ControlAction {
    ShowHelp,
    Upload(String),
    Quit,
    Ignore,
}

/// A character that separates words on a console line.
pub open spec fn spec_is_sep(c: char) -> bool {
    spec_is_space(c) || c == '\n'
}

/// First position at or after `j` that ends a word.
pub open spec fn spec_word_end(s: Seq<char>, j: int) -> int
    decreases s.len() - j,
    when 0 <= j <= s.len()
{
    if j == s.len() {
        j
    } else if spec_is_sep(s[j]) {
        j
    } else {
        spec_word_end(s, j + 1)
    }
}

proof fn lemma_word_end_bounds(s: Seq<char>, j: int)
    requires
        0 <= j <= s.len(),
    ensures
        j <= spec_word_end(s, j) <= s.len(),
    decreases s.len() - j,
{
    if j < s.len() && !spec_is_sep(s[j]) {
        lemma_word_end_bounds(s, j + 1);
    }
}

/// The whitespace-separated words of a line from position `i` on.
pub open spec fn spec_words_from(s: Seq<char>, i: int) -> Seq<Seq<char>>
    decreases s.len() - i,
    when 0 <= i <= s.len()
    via spec_words_from_dec
{
    if i == s.len() {
        Seq::<Seq<char>>::empty()
    } else if spec_is_sep(s[i]) {
        spec_words_from(s, i + 1)
    } else {
        let e = spec_word_end(s, i + 1);
        seq![s.subrange(i, e)] + spec_words_from(s, e)
    }
}

#[via_fn]
proof fn spec_words_from_dec(s: Seq<char>, i: int) {
    if 0 <= i < s.len() && !spec_is_sep(s[i]) {
        lemma_word_end_bounds(s, i + 1);
    }
}

pub open spec fn spec_words(s: Seq<char>) -> Seq<Seq<char>> {
    spec_words_from(s, 0)
}

/// The decision of the console loop on one line: nothing on the line shows
/// the help, `u` uploads the named file (or `data`), `q` quits, and any
/// other word is ignored.
pub open spec fn spec_control_action(words: Seq<Seq<char>>) -> Result<Seq<char>, ControlAction> {
    if words.len() == 0 {
        Err(ControlAction::ShowHelp)
    } else if words[0] == "u"@ {
        if words.len() > 1 {
            Ok(words[1])
        } else {
            Ok("data"@)
        }
    } else if words[0] == "q"@ {
        Err(ControlAction::Quit)
    } else {
        Err(ControlAction::Ignore)
    }
}

fn is_sep(c: char) -> (r: bool)
    ensures
        r == spec_is_sep(c),
{
    is_space(c) || c == '\n'
}

fn word_end(s: &str, from: usize) -> (e: usize)
    requires
        from <= s@.len(),
    ensures
        e == spec_word_end(s@, from as int),
        from <= e <= s@.len(),
{
    let n = s.unicode_len();
    let mut j = from;
    while j < n && !is_sep(s.get_char(j))
        invariant
            n == s@.len(),
            from <= j <= n,
            spec_word_end(s@, from as int) == spec_word_end(s@, j as int),
        decreases n - j,
    {
        j += 1;
    }
    j
}

fn split_words(line: &str) -> (r: Vec<String>)
    ensures
        r@.map_values(|w: String| w@) == spec_words(line@),
{
    let n = line.unicode_len();
    let mut words: Vec<String> = Vec::new();
    let mut i: usize = 0;
    proof {
        assert(words@.map_values(|w: String| w@) =~= Seq::<Seq<char>>::empty());
    }
    loop
        invariant
            i <= n,
            n == line@.len(),
            spec_words(line@) == words@.map_values(|w: String| w@) + spec_words_from(
                line@,
                i as int,
            ),
        decreases n - i,
    {
        if i == n {
            proof {
                assert(words@.map_values(|w: String| w@) + Seq::<Seq<char>>::empty()
                    =~= words@.map_values(|w: String| w@));
            }
            return words;
        }
        let c = line.get_char(i);
        if is_sep(c) {
            i += 1;
        } else {
            let e = word_end(line, i + 1);
            let w = String::from_str(line.substring_char(i, e));
            let ghost words_pre = words@;
            words.push(w);
            i = e;
            proof {
                assert(words@.map_values(|x: String| x@) =~= words_pre.map_values(
                    |x: String| x@,
                ) + seq![words@.last()@]);
                assert((words_pre.map_values(|x: String| x@) + seq![words@.last()@])
                    + spec_words_from(line@, i as int) =~= words_pre.map_values(|x: String| x@)
                    + (seq![words@.last()@] + spec_words_from(line@, i as int)));
            }
        }
    }
}

/// The uploader's reaction to one console line.
pub fn parse_control_command(line: &str) -> (r: ControlAction)
    ensures
        ({
            let ws = spec_words(line@);
            match r {
                ControlAction::Upload(f) => spec_control_action(ws) == Ok::<
                    Seq<char>,
                    ControlAction,
                >(f@),
                ControlAction::ShowHelp => spec_control_action(ws) == Err::<
                    Seq<char>,
                    ControlAction,
                >(ControlAction::ShowHelp),
                ControlAction::Quit => spec_control_action(ws) == Err::<Seq<char>, ControlAction>(
                    ControlAction::Quit,
                ),
                ControlAction::Ignore => spec_control_action(ws) == Err::<
                    Seq<char>,
                    ControlAction,
                >(ControlAction::Ignore),
            }
        }),
{
    let words = split_words(line);
    if words.len() == 0 {
        return ControlAction::ShowHelp;
    }
    if str_eq(words[0].as_str(), "u") {
        if words.len() > 1 {
            let f = words[1].clone();
            return ControlAction::Upload(f);
        }
        return ControlAction::Upload(String::from_str("data"));
    }
    if str_eq(words[0].as_str(), "q") {
        return ControlAction::Quit;
    }
    ControlAction::Ignore
}

} // verus!

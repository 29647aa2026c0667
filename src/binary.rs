use vstd::arithmetic::div_mod::lemma_fundamental_div_mod_converse;
use vstd::prelude::*;

use crate::common::Game;
use crate::error::ApplicationError;
use crate::opcodes::{spec_lookup, CommandView, Opcode, OpcodeMeta};

verus! {

/// The id that ends the stream in the two releases with a 72-byte header,
/// besides 0.
pub const ALT_TERMINATOR: i32 = 1128681285;

/// The signed value of the little-endian 32-bit word at `pos`.
pub open spec fn word_value(b: Seq<u8>, pos: int) -> i32 {
    let u = b[pos] as int + 256 * (b[pos + 1] as int + 256 * (b[pos + 2] as int + 256 * (
    b[pos + 3] as int)));
    if u >= 0x8000_0000 {
        (u - 0x1_0000_0000) as i32
    } else {
        u as i32
    }
}

/// The word of `v` read as unsigned.
pub open spec fn unsigned_word(v: i32) -> int {
    if v < 0 {
        v + 0x1_0000_0000
    } else {
        v as int
    }
}

/// The four little-endian bytes of `v`.
pub open spec fn word_bytes(v: i32) -> Seq<u8> {
    let u = unsigned_word(v);
    seq![
        (u % 256) as u8,
        ((u / 256) % 256) as u8,
        ((u / 256 / 256) % 256) as u8,
        (u / 256 / 256 / 256) as u8,
    ]
}

/// The bytes of a sequence of words.
pub open spec fn words_bytes(ws: Seq<i32>) -> Seq<u8>
    decreases ws.len(),
{
    if ws.len() == 0 {
        Seq::empty()
    } else {
        word_bytes(ws[0]) + words_bytes(ws.drop_first())
    }
}

/// The `n` words that start at byte `pos`.
pub open spec fn words_at(b: Seq<u8>, pos: int, n: nat) -> Seq<i32> {
    Seq::new(n, |i: int| word_value(b, pos + 4 * i))
}

/// How many header bytes a binary timeline of `game` starts with, when read.
pub open spec fn header_len(game: Game) -> int {
    match game {
        Game::F | Game::FutureTone => 4,
        Game::F2nd | Game::X => 72,
        Game::Arcade => 0,
    }
}

/// The header written before the commands of a binary timeline of `game`.
pub open spec fn header_bytes(game: Game) -> Seq<u8> {
    match game {
        Game::F => word_bytes(302121504),
        Game::FutureTone => word_bytes(335874337),
        Game::F2nd | Game::X => word_bytes(1129535056) + Seq::new(72, |i: int| 0u8),
        Game::Arcade => Seq::empty(),
    }
}

/// Whether `id` ends the command stream of `game`.
pub open spec fn is_terminator(game: Game, id: i32) -> bool {
    id == 0 || (id == ALT_TERMINATOR && (game == Game::F2nd || game == Game::X))
}

/// The end marker that closes every decoded timeline.
pub open spec fn end_view() -> CommandView {
    CommandView { meta: OpcodeMeta { id: 0, opcode: Opcode::END, param_count: 0 }, args: Seq::empty() }
}

/// `pre` followed by the commands of `r`, or the error of `r`.
pub open spec fn prepend(pre: Seq<CommandView>, r: Result<Seq<CommandView>, ApplicationError>) -> Result<
    Seq<CommandView>,
    ApplicationError,
> {
    match r {
        Ok(rest) => Ok(pre + rest),
        Err(e) => Err(e),
    }
}

/// The commands decoded from byte `pos` on: each id is looked up in the
/// table of `game` and followed by as many argument words as it declares,
/// until a terminator, which yields the end marker.
pub open spec fn decode_from(game: Game, b: Seq<u8>, pos: int) -> Result<
    Seq<CommandView>,
    ApplicationError,
>
    decreases b.len() - pos,
{
    if pos < 0 || pos + 4 > b.len() {
        Err(ApplicationError::TruncatedInput)
    } else {
        let id = word_value(b, pos);
        if is_terminator(game, id) {
            Ok(seq![end_view()])
        } else {
            match spec_lookup(game, id) {
                Err(e) => Err(e),
                Ok(m) => {
                    let next = pos + 4 + 4 * m.param_count;
                    if next > b.len() {
                        Err(ApplicationError::TruncatedInput)
                    } else {
                        prepend(
                            seq![CommandView { meta: m, args: words_at(b, pos + 4, m.param_count as nat) }],
                            decode_from(game, b, next),
                        )
                    }
                },
            }
        }
    }
}

/// The byte position of the terminator that decoding from `pos` reaches.
pub open spec fn terminator_pos(game: Game, b: Seq<u8>, pos: int) -> int
    decreases b.len() - pos,
{
    if pos < 0 || pos + 4 > b.len() {
        pos
    } else {
        let id = word_value(b, pos);
        if is_terminator(game, id) {
            pos
        } else {
            match spec_lookup(game, id) {
                Err(e) => pos,
                Ok(m) => {
                    let next = pos + 4 + 4 * m.param_count;
                    if next > b.len() {
                        pos
                    } else {
                        terminator_pos(game, b, next)
                    }
                },
            }
        }
    }
}

/// The commands of a binary timeline of `game`.
pub open spec fn spec_decode(game: Game, b: Seq<u8>) -> Result<Seq<CommandView>, ApplicationError> {
    if game == Game::Arcade {
        Err(ApplicationError::UnsupportedGame(game))
    } else {
        decode_from(game, b, header_len(game))
    }
}

/// The bytes of one command: its id, then its arguments.
pub open spec fn command_bytes(c: CommandView) -> Seq<u8> {
    word_bytes(c.meta.id) + words_bytes(c.args)
}

/// The bytes of a sequence of commands.
pub open spec fn encode_commands(cs: Seq<CommandView>) -> Seq<u8>
    decreases cs.len(),
{
    if cs.len() == 0 {
        Seq::empty()
    } else {
        command_bytes(cs[0]) + encode_commands(cs.drop_first())
    }
}

/// The binary timeline of `game` holding `cs`.
pub open spec fn spec_encode(game: Game, cs: Seq<CommandView>) -> Result<Seq<u8>, ApplicationError> {
    if game == Game::Arcade {
        Err(ApplicationError::UnsupportedGame(game))
    } else {
        Ok(header_bytes(game) + encode_commands(cs))
    }
}

/// Reading a word and writing it back gives the same four bytes.
pub proof fn lemma_bytes_word_bytes(b: Seq<u8>, pos: int)
    requires
        0 <= pos,
        pos + 4 <= b.len(),
    ensures
        word_bytes(word_value(b, pos)) == b.subrange(pos, pos + 4),
{
    let b0 = b[pos] as int;
    let b1 = b[pos + 1] as int;
    let b2 = b[pos + 2] as int;
    let b3 = b[pos + 3] as int;
    let u = b0 + 256 * (b1 + 256 * (b2 + 256 * b3));
    assert(unsigned_word(word_value(b, pos)) == u);
    lemma_fundamental_div_mod_converse(u, 256, b1 + 256 * (b2 + 256 * b3), b0);
    lemma_fundamental_div_mod_converse(b1 + 256 * (b2 + 256 * b3), 256, b2 + 256 * b3, b1);
    lemma_fundamental_div_mod_converse(b2 + 256 * b3, 256, b3, b2);
    assert(word_bytes(word_value(b, pos)) =~= b.subrange(pos, pos + 4));
}

/// Writing a word and reading it back gives the same value.
pub proof fn lemma_word_bytes_word(v: i32)
    ensures
        word_value(word_bytes(v), 0) == v,
        word_bytes(v).len() == 4,
{
    let u = unsigned_word(v);
    let q1 = u / 256;
    let q2 = q1 / 256;
    let q3 = q2 / 256;
    assert(u == 256 * q1 + u % 256) by {
        vstd::arithmetic::div_mod::lemma_fundamental_div_mod(u, 256);
    }
    assert(q1 == 256 * q2 + q1 % 256) by {
        vstd::arithmetic::div_mod::lemma_fundamental_div_mod(q1, 256);
    }
    assert(q2 == 256 * q3 + q2 % 256) by {
        vstd::arithmetic::div_mod::lemma_fundamental_div_mod(q2, 256);
    }
    assert(0 <= q3 < 256) by {
        vstd::arithmetic::div_mod::lemma_div_pos_is_pos(u, 256);
        vstd::arithmetic::div_mod::lemma_div_pos_is_pos(q1, 256);
        vstd::arithmetic::div_mod::lemma_div_pos_is_pos(q2, 256);
    }
}

proof fn lemma_words_bytes(b: Seq<u8>, pos: int, n: nat)
    requires
        0 <= pos,
        pos + 4 * n <= b.len(),
    ensures
        words_bytes(words_at(b, pos, n)) == b.subrange(pos, pos + 4 * n),
    decreases n,
{
    if n == 0 {
        assert(words_at(b, pos, n) =~= Seq::<i32>::empty());
        assert(b.subrange(pos, pos) =~= Seq::<u8>::empty());
    } else {
        let ws = words_at(b, pos, n);
        assert(ws.drop_first() =~= words_at(b, pos + 4, (n - 1) as nat));
        lemma_words_bytes(b, pos + 4, (n - 1) as nat);
        lemma_bytes_word_bytes(b, pos);
        assert(b.subrange(pos, pos + 4 * n) =~= b.subrange(pos, pos + 4) + b.subrange(
            pos + 4,
            pos + 4 * n,
        ));
    }
}

proof fn lemma_encode_decoded(game: Game, b: Seq<u8>, pos: int)
    requires
        decode_from(game, b, pos) is Ok,
    ensures
        0 <= pos <= terminator_pos(game, b, pos),
        terminator_pos(game, b, pos) + 4 <= b.len(),
        encode_commands(decode_from(game, b, pos)->Ok_0) == b.subrange(
            pos,
            terminator_pos(game, b, pos),
        ) + word_bytes(0),
    decreases b.len() - pos,
{
    let id = word_value(b, pos);
    let cs = decode_from(game, b, pos)->Ok_0;
    if is_terminator(game, id) {
        assert(words_bytes(Seq::<i32>::empty()) =~= Seq::<u8>::empty());
        assert(encode_commands(cs.drop_first()) =~= Seq::<u8>::empty());
        assert(b.subrange(pos, pos) =~= Seq::<u8>::empty());
        assert(encode_commands(cs) =~= b.subrange(pos, pos) + word_bytes(0));
    } else {
        let m = spec_lookup(game, id)->Ok_0;
        let next = pos + 4 + 4 * m.param_count;
        lemma_encode_decoded(game, b, next);
        let c = CommandView { meta: m, args: words_at(b, pos + 4, m.param_count as nat) };
        assert(cs.drop_first() =~= decode_from(game, b, next)->Ok_0);
        assert(cs[0] == c);
        lemma_bytes_word_bytes(b, pos);
        lemma_words_bytes(b, pos + 4, m.param_count as nat);
        assert(m.id == id);
        let t = terminator_pos(game, b, pos);
        assert(b.subrange(pos, t) =~= b.subrange(pos, pos + 4) + b.subrange(pos + 4, next)
            + b.subrange(next, t));
        assert(encode_commands(cs) =~= b.subrange(pos, t) + word_bytes(0));
    }
}

/// Decoding a binary timeline and encoding its commands again for the same
/// release gives the release's header, then the original command words up
/// to the terminator, then the end marker's id, 0.
pub proof fn lemma_round_trip(game: Game, b: Seq<u8>)
    requires
        spec_decode(game, b) is Ok,
    ensures
        header_len(game) <= terminator_pos(game, b, header_len(game)),
        terminator_pos(game, b, header_len(game)) + 4 <= b.len(),
        spec_encode(game, spec_decode(game, b)->Ok_0) == Ok::<Seq<u8>, ApplicationError>(
            header_bytes(game) + b.subrange(header_len(game), terminator_pos(game, b, header_len(game)))
                + word_bytes(0),
        ),
{
    lemma_encode_decoded(game, b, header_len(game));
    let body = b.subrange(header_len(game), terminator_pos(game, b, header_len(game)));
    assert(header_bytes(game) + encode_commands(spec_decode(game, b)->Ok_0) =~= header_bytes(game)
        + body + word_bytes(0));
}

/// Whether a command can stand in a binary timeline of `game`: its id is in
/// the table with its opcode and arity, it is no terminator, and it has as
/// many arguments as the table declares.
pub open spec fn encodable(game: Game, c: CommandView) -> bool {
    &&& !is_terminator(game, c.meta.id)
    &&& spec_lookup(game, c.meta.id) == Ok::<OpcodeMeta, ApplicationError>(c.meta)
    &&& c.args.len() == c.meta.param_count
}

proof fn lemma_word_at(b: Seq<u8>, pos: int, v: i32)
    requires
        0 <= pos,
        pos + 4 <= b.len(),
        b.subrange(pos, pos + 4) == word_bytes(v),
    ensures
        word_value(b, pos) == v,
{
    lemma_word_bytes_word(v);
    assert(b[pos] == word_bytes(v)[0]);
    assert(b[pos + 1] == word_bytes(v)[1]);
    assert(b[pos + 2] == word_bytes(v)[2]);
    assert(b[pos + 3] == word_bytes(v)[3]);
}

proof fn lemma_words_at(b: Seq<u8>, pos: int, ws: Seq<i32>)
    requires
        0 <= pos,
        pos + words_bytes(ws).len() <= b.len(),
        b.subrange(pos, pos + words_bytes(ws).len()) == words_bytes(ws),
    ensures
        words_bytes(ws).len() == 4 * ws.len(),
        words_at(b, pos, ws.len()) == ws,
    decreases ws.len(),
{
    if ws.len() > 0 {
        lemma_word_bytes_word(ws[0]);
        let rest = ws.drop_first();
        let n = words_bytes(ws).len();
        assert(b.subrange(pos, pos + 4) =~= words_bytes(ws).subrange(0, 4));
        assert(words_bytes(ws).subrange(0, 4) =~= word_bytes(ws[0]));
        assert(b.subrange(pos + 4, pos + n) =~= words_bytes(ws).subrange(4, n as int));
        assert(words_bytes(ws).subrange(4, n as int) =~= words_bytes(rest));
        lemma_words_at(b, pos + 4, rest);
        lemma_word_at(b, pos, ws[0]);
        assert forall|i: int| 0 <= i < ws.len() implies #[trigger] words_at(b, pos, ws.len())[i]
            == ws[i] by {
            if i > 0 {
                assert(words_at(b, pos + 4, rest.len())[i - 1] == rest[i - 1]);
            }
        }
        assert(words_at(b, pos, ws.len()) =~= ws);
    } else {
        assert(words_at(b, pos, ws.len()) =~= ws);
    }
}

proof fn lemma_decode_encoded(game: Game, b: Seq<u8>, pos: int, cs: Seq<CommandView>)
    requires
        0 <= pos,
        forall|i: int| 0 <= i < cs.len() ==> encodable(game, #[trigger] cs[i]),
        pos + encode_commands(cs).len() <= b.len(),
        b.subrange(pos, pos + encode_commands(cs).len()) == encode_commands(cs),
    ensures
        decode_from(game, b, pos) == prepend(cs, decode_from(game, b, pos + encode_commands(cs).len())),
    decreases cs.len(),
{
    if cs.len() == 0 {
        assert(cs + Seq::<CommandView>::empty() =~= Seq::<CommandView>::empty());
        match decode_from(game, b, pos) {
            Ok(r) => {
                assert(cs + r =~= r);
            },
            Err(_) => {},
        }
    } else {
        let c = cs[0];
        let rest = cs.drop_first();
        assert(encodable(game, c));
        let cb = command_bytes(c);
        let n = encode_commands(cs).len();
        lemma_word_bytes_word(c.meta.id);
        let ab = words_bytes(c.args);
        assert(b.subrange(pos, pos + 4) =~= encode_commands(cs).subrange(0, 4));
        assert(encode_commands(cs) == word_bytes(c.meta.id) + ab + encode_commands(rest));
        assert(encode_commands(cs).subrange(0, 4) =~= word_bytes(c.meta.id));
        lemma_word_at(b, pos, c.meta.id);
        assert(b.subrange(pos + 4, pos + 4 + ab.len()) =~= encode_commands(cs).subrange(4, 4 + ab.len() as int));
        assert(encode_commands(cs).subrange(4, 4 + ab.len() as int) =~= ab);
        lemma_words_at(b, pos + 4, c.args);
        let next = pos + 4 + 4 * c.meta.param_count;
        assert(b.subrange(next, pos + n) =~= encode_commands(cs).subrange(cb.len() as int, n as int));
        assert(encode_commands(cs).subrange(cb.len() as int, n as int) =~= encode_commands(rest));
        assert forall|i: int| 0 <= i < rest.len() implies encodable(game, #[trigger] rest[i]) by {
            assert(rest[i] == cs[i + 1]);
        }
        lemma_decode_encoded(game, b, next, rest);
        assert(CommandView { meta: c.meta, args: words_at(b, pos + 4, c.meta.param_count as nat) } == c);
        match decode_from(game, b, pos + n) {
            Ok(r) => {
                assert(seq![c] + (rest + r) =~= cs + r);
            },
            Err(_) => {},
        }
    }
}

/// Encoding commands for F or Future Tone, whose header is as long as the
/// decoder skips, and decoding the bytes gives the commands back, closed by
/// the end marker.
pub proof fn lemma_decode_of_encode(game: Game, cs: Seq<CommandView>)
    requires
        game == Game::F || game == Game::FutureTone,
        forall|i: int| 0 <= i < cs.len() ==> encodable(game, #[trigger] cs[i]),
    ensures
        spec_decode(game, header_bytes(game) + encode_commands(cs) + word_bytes(0))
            == Ok::<Seq<CommandView>, ApplicationError>(cs.push(end_view())),
{
    let b = header_bytes(game) + encode_commands(cs) + word_bytes(0);
    let h = header_bytes(game).len() as int;
    lemma_word_bytes_word(0);
    lemma_word_bytes_word(302121504);
    lemma_word_bytes_word(335874337);
    assert(b.subrange(h, h + encode_commands(cs).len() as int) =~= encode_commands(cs));
    lemma_decode_encoded(game, b, h, cs);
    let p = h + encode_commands(cs).len() as int;
    assert(b.subrange(p, p + 4) =~= word_bytes(0));
    lemma_word_at(b, p, 0);
    assert(cs + seq![end_view()] =~= cs.push(end_view()));
}

/// A stream that reaches an id which the table of `game` does not hold, at
/// a command boundary, fails with that id, whatever follows.
pub proof fn lemma_unknown_opcode(
    game: Game,
    header: Seq<u8>,
    cs: Seq<CommandView>,
    w: i32,
    tail: Seq<u8>,
)
    requires
        game != Game::Arcade,
        header.len() == header_len(game),
        forall|i: int| 0 <= i < cs.len() ==> encodable(game, #[trigger] cs[i]),
        !is_terminator(game, w),
        spec_lookup(game, w) == Err::<OpcodeMeta, ApplicationError>(ApplicationError::UnknownOpcode(w)),
    ensures
        spec_decode(game, header + encode_commands(cs) + word_bytes(w) + tail)
            == Err::<Seq<CommandView>, ApplicationError>(ApplicationError::UnknownOpcode(w)),
{
    let b = header + encode_commands(cs) + word_bytes(w) + tail;
    let h = header.len() as int;
    lemma_word_bytes_word(w);
    assert(b.subrange(h, h + encode_commands(cs).len() as int) =~= encode_commands(cs));
    lemma_decode_encoded(game, b, h, cs);
    let p = h + encode_commands(cs).len() as int;
    assert(b.subrange(p, p + 4) =~= word_bytes(w));
    lemma_word_at(b, p, w);
}

/// The bytes of commands side by side are the bytes of their concatenation.
pub proof fn lemma_encode_concat(a: Seq<CommandView>, b: Seq<CommandView>)
    ensures
        encode_commands(a + b) == encode_commands(a) + encode_commands(b),
    decreases a.len(),
{
    if a.len() == 0 {
        assert(a + b =~= b);
        assert(encode_commands(a) + encode_commands(b) =~= encode_commands(b));
    } else {
        assert((a + b).drop_first() =~= a.drop_first() + b);
        lemma_encode_concat(a.drop_first(), b);
        assert(encode_commands(a + b) =~= encode_commands(a) + encode_commands(b));
    }
}

/// The bytes of words side by side are the bytes of their concatenation.
pub proof fn lemma_words_concat(a: Seq<i32>, b: Seq<i32>)
    ensures
        words_bytes(a + b) == words_bytes(a) + words_bytes(b),
    decreases a.len(),
{
    if a.len() == 0 {
        assert(a + b =~= b);
        assert(words_bytes(a) + words_bytes(b) =~= words_bytes(b));
    } else {
        assert((a + b).drop_first() =~= a.drop_first() + b);
        lemma_words_concat(a.drop_first(), b);
        assert(words_bytes(a + b) =~= words_bytes(a) + words_bytes(b));
    }
}

/// Appends the four little-endian bytes of `v`.
pub fn push_word(out: &mut Vec<u8>, v: i32)
    ensures
        final(out)@ == old(out)@ + word_bytes(v),
{
    let u: i64 = if v < 0 {
        v as i64 + 0x1_0000_0000
    } else {
        v as i64
    };
    let q1 = u / 256;
    let q2 = q1 / 256;
    let q3 = q2 / 256;
    assert(0 <= q3 < 256) by {
        vstd::arithmetic::div_mod::lemma_div_pos_is_pos(u as int, 256);
        vstd::arithmetic::div_mod::lemma_div_pos_is_pos(q1 as int, 256);
        vstd::arithmetic::div_mod::lemma_div_pos_is_pos(q2 as int, 256);
    }
    out.push((u % 256) as u8);
    out.push((q1 % 256) as u8);
    out.push((q2 % 256) as u8);
    out.push(q3 as u8);
    assert(final(out)@ =~= old(out)@ + word_bytes(v));
}

/// Reads the little-endian 32-bit word at `pos`.
pub fn read_word(data: &[u8], pos: usize) -> (r: i32)
    requires
        pos + 4 <= data@.len(),
    ensures
        r == word_value(data@, pos as int),
{
    let u: u32 = data[pos] as u32 + 256 * (data[pos + 1] as u32 + 256 * (data[pos + 2] as u32 + 256 * (
    data[pos + 3] as u32)));
    if u >= 0x8000_0000 {
        (u as i64 - 0x1_0000_0000) as i32
    } else {
        u as i32
    }
}

} // verus!

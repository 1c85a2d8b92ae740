//! Persisted session state and its lossless codec.
//!
//! A session is persisted as a structural record: the conversation, the
//! task-ledger snapshot, the model identifier, and the accumulated token
//! cost. The encoding is a plain character format of this library's own:
//! numbers as sixteen hexadecimal digits, strings length-prefixed, sums
//! tagged by one character. `save` and `load` implement the spec encoder
//! and decoder exactly, and decoding an encoding yields the encoded
//! record back — the round-trip law.

use vstd::prelude::*;

use crate::chat::{
    ArgValue, ArgValueModel, CallModel, EditOp, EditOpModel, FunctionCall, Message, MessageModel,
    Role, ToolArgs,
};
use crate::error::AiError;
use crate::ledger::{Priority, Status, TaskLedger, TodoItem, TodoModel};

verus! {

/// Sixteen raised to `w`.
pub open spec fn pow16(w: nat) -> nat
    decreases w,
{
    if w == 0 {
        1
    } else {
        16 * pow16((w - 1) as nat)
    }
}

/// The character of one hexadecimal digit.
pub open spec fn hex_char_spec(d: nat) -> char {
    if d == 0 {
        '0'
    } else if d == 1 {
        '1'
    } else if d == 2 {
        '2'
    } else if d == 3 {
        '3'
    } else if d == 4 {
        '4'
    } else if d == 5 {
        '5'
    } else if d == 6 {
        '6'
    } else if d == 7 {
        '7'
    } else if d == 8 {
        '8'
    } else if d == 9 {
        '9'
    } else if d == 10 {
        'a'
    } else if d == 11 {
        'b'
    } else if d == 12 {
        'c'
    } else if d == 13 {
        'd'
    } else if d == 14 {
        'e'
    } else {
        'f'
    }
}

/// The value of one hexadecimal digit character, if it is one.
pub open spec fn hex_val_spec(c: char) -> Option<nat> {
    if c == '0' {
        Some(0nat)
    } else if c == '1' {
        Some(1nat)
    } else if c == '2' {
        Some(2nat)
    } else if c == '3' {
        Some(3nat)
    } else if c == '4' {
        Some(4nat)
    } else if c == '5' {
        Some(5nat)
    } else if c == '6' {
        Some(6nat)
    } else if c == '7' {
        Some(7nat)
    } else if c == '8' {
        Some(8nat)
    } else if c == '9' {
        Some(9nat)
    } else if c == 'a' {
        Some(10nat)
    } else if c == 'b' {
        Some(11nat)
    } else if c == 'c' {
        Some(12nat)
    } else if c == 'd' {
        Some(13nat)
    } else if c == 'e' {
        Some(14nat)
    } else if c == 'f' {
        Some(15nat)
    } else {
        None
    }
}

/// The low `w` hexadecimal digits of `n`, most significant first.
pub open spec fn enc_hex(n: nat, w: nat) -> Seq<char>
    decreases w,
{
    if w == 0 {
        Seq::<char>::empty()
    } else {
        enc_hex(n / 16, (w - 1) as nat).push(hex_char_spec(n % 16))
    }
}

/// The value of the `w` digits of `s` starting at `at`, if they are
/// hexadecimal digits within bounds.
pub open spec fn dec_hex_at(s: Seq<char>, at: int, w: nat) -> Option<nat>
    decreases w,
{
    if w == 0 {
        Some(0nat)
    } else {
        match dec_hex_at(s, at, (w - 1) as nat) {
            None => None,
            Some(v) => if 0 <= at + w - 1 < s.len() {
                match hex_val_spec(s[at + w - 1]) {
                    Some(d) => Some(v * 16 + d),
                    None => None,
                }
            } else {
                None
            },
        }
    }
}

/// An encoded number has one character per digit.
pub proof fn lemma_enc_hex_len(n: nat, w: nat)
    ensures
        enc_hex(n, w).len() == w,
    decreases w,
{
    if w > 0 {
        lemma_enc_hex_len(n / 16, (w - 1) as nat);
    }
}

/// `e` stands inside `s` at position `at`.
pub open spec fn slice_at(s: Seq<char>, at: int, e: Seq<char>) -> bool {
    &&& 0 <= at
    &&& at + e.len() <= s.len()
    &&& forall|i: int| 0 <= i < e.len() ==> s[at + i] == e[i]
}

/// Reading the digits that an encoding placed yields the encoded value.
pub proof fn lemma_dec_hex(s: Seq<char>, at: int, n: nat, w: nat)
    requires
        n < pow16(w),
        slice_at(s, at, enc_hex(n, w)),
    ensures
        dec_hex_at(s, at, w) == Some(n),
    decreases w,
{
    lemma_enc_hex_len(n, w);
    if w == 0 {
        assert(n == 0);
    } else {
        let e = enc_hex(n, w);
        let e1 = enc_hex(n / 16, (w - 1) as nat);
        lemma_enc_hex_len(n / 16, (w - 1) as nat);
        assert(e == e1.push(hex_char_spec(n % 16)));
        assert forall|i: int| 0 <= i < e1.len() implies s[at + i] == e1[i] by {
            assert(e[i] == e1[i]);
        }
        assert(n / 16 < pow16((w - 1) as nat)) by {
            if n / 16 >= pow16((w - 1) as nat) {
                assert(n >= 16 * pow16((w - 1) as nat));
            }
        }
        lemma_dec_hex(s, at, n / 16, (w - 1) as nat);
        assert(s[at + w - 1] == e[w - 1]);
        assert(e[w - 1] == hex_char_spec(n % 16));
        assert(hex_val_spec(hex_char_spec(n % 16)) == Some(n % 16));
        assert((n / 16) * 16 + n % 16 == n) by (nonlinear_arith);
    }
}

/// The character of digit `d`.
fn hex_char(d: u64) -> (r: char)
    requires
        d < 16,
    ensures
        r == hex_char_spec(d as nat),
{
    if d == 0 {
        '0'
    } else if d == 1 {
        '1'
    } else if d == 2 {
        '2'
    } else if d == 3 {
        '3'
    } else if d == 4 {
        '4'
    } else if d == 5 {
        '5'
    } else if d == 6 {
        '6'
    } else if d == 7 {
        '7'
    } else if d == 8 {
        '8'
    } else if d == 9 {
        '9'
    } else if d == 10 {
        'a'
    } else if d == 11 {
        'b'
    } else if d == 12 {
        'c'
    } else if d == 13 {
        'd'
    } else if d == 14 {
        'e'
    } else {
        'f'
    }
}

/// The value of a digit character, if it is one.
fn hex_val(c: char) -> (r: Option<u64>)
    ensures
        (match r {
            Some(d) => hex_val_spec(c) == Some(d as nat) && d < 16,
            None => hex_val_spec(c) is None,
        }),
{
    if c == '0' {
        Some(0)
    } else if c == '1' {
        Some(1)
    } else if c == '2' {
        Some(2)
    } else if c == '3' {
        Some(3)
    } else if c == '4' {
        Some(4)
    } else if c == '5' {
        Some(5)
    } else if c == '6' {
        Some(6)
    } else if c == '7' {
        Some(7)
    } else if c == '8' {
        Some(8)
    } else if c == '9' {
        Some(9)
    } else if c == 'a' {
        Some(10)
    } else if c == 'b' {
        Some(11)
    } else if c == 'c' {
        Some(12)
    } else if c == 'd' {
        Some(13)
    } else if c == 'e' {
        Some(14)
    } else if c == 'f' {
        Some(15)
    } else {
        None
    }
}

/// Sixteen to the sixteenth is one more than the largest `u64`.
proof fn lemma_pow16_16()
    ensures
        pow16(16) == 0x1_0000_0000_0000_0000,
{
    reveal_with_fuel(pow16, 17);
}

/// Writes the sixteen digits of `n` after `out`.
fn enc_num_push(out: &mut Vec<char>, n: u64)
    ensures
        final(out)@ == old(out)@ + enc_hex(n as nat, 16),
{
    let ghost start = out@;
    enc_hex_push(out, n, 16);
}

/// Writes the low `w` digits of `n` after `out`.
fn enc_hex_push(out: &mut Vec<char>, n: u64, w: u64)
    requires
        w <= 16,
    ensures
        final(out)@ == old(out)@ + enc_hex(n as nat, w as nat),
    decreases w,
{
    if w == 0 {
        proof {
            assert(old(out)@ + enc_hex(n as nat, 0) =~= old(out)@);
        }
    } else {
        enc_hex_push(out, n / 16, w - 1);
        out.push(hex_char(n % 16));
        proof {
            assert(old(out)@ + enc_hex(n as nat, w as nat) =~= (old(out)@ + enc_hex(
                (n / 16) as nat,
                (w - 1) as nat,
            )).push(hex_char_spec((n % 16) as nat)));
        }
    }
}

/// Reads the `w` digits at `at`.
fn dec_hex_exec(sc: &Vec<char>, at: usize, w: u64) -> (r: Option<u64>)
    requires
        w <= 16,
        at + w <= sc@.len(),
    ensures
        (match r {
            Some(v) => dec_hex_at(sc@, at as int, w as nat) == Some(v as nat) && (v as nat) < pow16(
                w as nat,
            ),
            None => dec_hex_at(sc@, at as int, w as nat) is None,
        }),
    decreases w,
{
    if w == 0 {
        Some(0)
    } else {
        let n = sc.len();
        proof {
            assert(at + w <= n);
        }
        match dec_hex_exec(sc, at, w - 1) {
            None => None,
            Some(v) => {
                let idx = at + ((w - 1) as usize);
                match hex_val(sc[idx]) {
                    None => None,
                    Some(d) => {
                        proof {
                            lemma_pow16_16();
                            assert(pow16(w as nat) == 16 * pow16((w - 1) as nat));
                            assert(pow16(w as nat) <= pow16(16)) by {
                                lemma_pow16_mono(w as nat, 16);
                            }
                            assert(v * 16 + d < pow16(w as nat)) by (nonlinear_arith)
                                requires
                                    (v as nat) < pow16((w - 1) as nat),
                                    d < 16,
                                    pow16(w as nat) == 16 * pow16((w - 1) as nat),
                            ;
                        }
                        Some(v * 16 + d)
                    },
                }
            },
        }
    }
}

/// Powers of sixteen grow with the exponent.
proof fn lemma_pow16_mono(a: nat, b: nat)
    requires
        a <= b,
    ensures
        pow16(a) <= pow16(b),
    decreases b,
{
    if a < b {
        lemma_pow16_mono(a, (b - 1) as nat);
        assert(pow16(b) == 16 * pow16((b - 1) as nat));
        assert(pow16((b - 1) as nat) <= 16 * pow16((b - 1) as nat)) by (nonlinear_arith)
            requires
                pow16((b - 1) as nat) >= 0,
        ;
    }
}

/// Splitting an embedded concatenation.
pub proof fn lemma_slice_split(s: Seq<char>, at: int, e1: Seq<char>, e2: Seq<char>)
    requires
        slice_at(s, at, e1 + e2),
    ensures
        slice_at(s, at, e1),
        slice_at(s, at + e1.len(), e2),
{
    assert forall|i: int| 0 <= i < e1.len() implies s[at + i] == e1[i] by {
        assert((e1 + e2)[i] == e1[i]);
    }
    assert forall|i: int| 0 <= i < e2.len() implies s[at + e1.len() + i] == e2[i] by {
        assert((e1 + e2)[e1.len() + i] == e2[i]);
    }
}

/// One number, as its sixteen digits.
pub open spec fn enc_num(n: u64) -> Seq<char> {
    enc_hex(n as nat, 16)
}

/// One length-prefixed string.
pub open spec fn enc_str(s: Seq<char>) -> Seq<char> {
    enc_hex(s.len(), 16) + s
}

/// One tagged truth value.
pub open spec fn enc_bool(b: bool) -> Seq<char> {
    if b {
        seq!['T']
    } else {
        seq!['F']
    }
}

/// One optional string, tagged present or absent.
pub open spec fn enc_opt_str(o: Option<Seq<char>>) -> Seq<char> {
    match o {
        Some(s) => seq!['S'] + enc_str(s),
        None => seq!['N'],
    }
}

/// One role, as its tag character.
pub open spec fn enc_role(r: Role) -> Seq<char> {
    match r {
        Role::Assistant => seq!['a'],
        Role::System => seq!['s'],
        Role::User => seq!['u'],
        Role::Tool => seq!['t'],
    }
}

/// One priority, as its tag character.
pub open spec fn enc_priority(p: Priority) -> Seq<char> {
    match p {
        Priority::High => seq!['h'],
        Priority::Medium => seq!['m'],
        Priority::Low => seq!['l'],
    }
}

/// One status, as its tag character.
pub open spec fn enc_status(st: Status) -> Seq<char> {
    match st {
        Status::Pending => seq!['p'],
        Status::InProgress => seq!['i'],
        Status::Completed => seq!['c'],
    }
}

/// One signed number: a sign tag, then the magnitude.
pub open spec fn enc_i64(n: i64) -> Seq<char> {
    if n >= 0 {
        seq!['P'] + enc_hex(n as nat, 16)
    } else {
        seq!['M'] + enc_hex((-(n as int)) as nat, 16)
    }
}

/// One pending replacement.
pub open spec fn enc_editop(e: EditOpModel) -> Seq<char> {
    enc_str(e.old_string) + enc_str(e.new_string) + enc_bool(e.replace_all)
}

/// The replacements of `s` encoded one after the other.
pub open spec fn enc_edits(s: Seq<EditOpModel>) -> Seq<char>
    decreases s.len(),
{
    if s.len() == 0 {
        Seq::<char>::empty()
    } else {
        enc_editop(s[0]) + enc_edits(s.skip(1))
    }
}

/// The named arguments of `s` encoded one after the other.
pub open spec fn enc_pairs(s: Seq<(Seq<char>, ArgValueModel)>) -> Seq<char>
    decreases s.len(),
{
    if s.len() == 0 {
        Seq::<char>::empty()
    } else {
        enc_pair(s[0]) + enc_pairs(s.skip(1))
    }
}

/// The calls of `s` encoded one after the other.
pub open spec fn enc_calls(s: Seq<CallModel>) -> Seq<char>
    decreases s.len(),
{
    if s.len() == 0 {
        Seq::<char>::empty()
    } else {
        enc_call(s[0]) + enc_calls(s.skip(1))
    }
}

/// The messages of `s` encoded one after the other.
pub open spec fn enc_msgs(s: Seq<MessageModel>) -> Seq<char>
    decreases s.len(),
{
    if s.len() == 0 {
        Seq::<char>::empty()
    } else {
        enc_msg(s[0]) + enc_msgs(s.skip(1))
    }
}

/// The ledger entries of `s` encoded one after the other.
pub open spec fn enc_todos(s: Seq<(Seq<char>, TodoModel)>) -> Seq<char>
    decreases s.len(),
{
    if s.len() == 0 {
        Seq::<char>::empty()
    } else {
        enc_todo(s[0]) + enc_todos(s.skip(1))
    }
}

/// One argument value, tagged by kind.
pub open spec fn enc_argval(v: ArgValueModel) -> Seq<char> {
    match v {
        ArgValueModel::Str(s) => seq!['s'] + enc_str(s),
        ArgValueModel::Int(n) => seq!['i'] + enc_i64(n),
        ArgValueModel::Bool(b) => seq!['b'] + enc_bool(b),
        ArgValueModel::Edits(es) => seq!['e'] + enc_hex(es.len(), 16) + enc_edits(es),
    }
}

/// One named argument.
pub open spec fn enc_pair(p: (Seq<char>, ArgValueModel)) -> Seq<char> {
    enc_str(p.0) + enc_argval(p.1)
}

/// One tool call.
pub open spec fn enc_call(c: CallModel) -> Seq<char> {
    enc_opt_str(c.id) + enc_str(c.name) + enc_hex(c.args.len(), 16) + enc_pairs(c.args)
}

/// One message.
pub open spec fn enc_msg(m: MessageModel) -> Seq<char> {
    enc_role(m.role) + enc_str(m.content) + enc_hex(m.tool_calls.len(), 16) + enc_calls(
        m.tool_calls,
    ) + enc_opt_str(m.tool_call_id) + enc_bool(m.error) + enc_bool(m.cache_hint)
}

/// One ledger entry.
pub open spec fn enc_todo(e: (Seq<char>, TodoModel)) -> Seq<char> {
    enc_str(e.0) + enc_priority(e.1.priority) + enc_status(e.1.status) + enc_str(e.1.content)
}

/// The model of a persisted session record.
#[verifier::ext_equal]
pub ghost struct SessionModel {
    pub chat: Seq<MessageModel>,
    pub todo: Seq<(Seq<char>, TodoModel)>,
    pub model: Seq<char>,
    pub token_cost: u64,
}

/// One whole session record.
pub open spec fn enc_session(m: SessionModel) -> Seq<char> {
    enc_hex(m.chat.len(), 16) + enc_msgs(m.chat) + enc_hex(m.todo.len(), 16) + enc_todos(
        m.todo,
    ) + enc_str(m.model) + enc_num(m.token_cost)
}

/// Every count and length of the value fits in sixteen digits.
pub open spec fn bounded_str(s: Seq<char>) -> bool {
    s.len() < pow16(16)
}

/// Every count and length of the value fits in sixteen digits.
pub open spec fn bounded_argval(v: ArgValueModel) -> bool {
    match v {
        ArgValueModel::Str(s) => bounded_str(s),
        ArgValueModel::Int(_) => true,
        ArgValueModel::Bool(_) => true,
        ArgValueModel::Edits(es) => es.len() < pow16(16) && (forall|i: int|
            0 <= i < es.len() ==> bounded_str(#[trigger] es[i].old_string) && bounded_str(
                es[i].new_string,
            )),
    }
}

/// Every count and length of the value fits in sixteen digits.
pub open spec fn bounded_call(c: CallModel) -> bool {
    &&& (match c.id {
        Some(s) => bounded_str(s),
        None => true,
    })
    &&& bounded_str(c.name)
    &&& c.args.len() < pow16(16)
    &&& forall|i: int|
        0 <= i < c.args.len() ==> bounded_str(#[trigger] c.args[i].0) && bounded_argval(
            c.args[i].1,
        )
}

/// Every count and length of the value fits in sixteen digits.
pub open spec fn bounded_msg(m: MessageModel) -> bool {
    &&& bounded_str(m.content)
    &&& m.tool_calls.len() < pow16(16)
    &&& (forall|i: int| 0 <= i < m.tool_calls.len() ==> bounded_call(#[trigger] m.tool_calls[i]))
    &&& (match m.tool_call_id {
        Some(s) => bounded_str(s),
        None => true,
    })
}

/// Every count and length of the value fits in sixteen digits.
pub open spec fn bounded_session(m: SessionModel) -> bool {
    &&& m.chat.len() < pow16(16)
    &&& (forall|i: int| 0 <= i < m.chat.len() ==> bounded_msg(#[trigger] m.chat[i]))
    &&& m.todo.len() < pow16(16)
    &&& (forall|i: int|
        0 <= i < m.todo.len() ==> bounded_str(#[trigger] m.todo[i].0) && bounded_str(
            m.todo[i].1.content,
        ))
    &&& bounded_str(m.model)
}

/// Reads sixteen digits at `at`.
pub open spec fn dec_num_at(s: Seq<char>, at: int) -> Option<(u64, int)> {
    match dec_hex_at(s, at, 16) {
        Some(v) => Some((v as u64, at + 16)),
        None => None,
    }
}

/// Reads a length-prefixed string at `at`.
pub open spec fn dec_str_at(s: Seq<char>, at: int) -> Option<(Seq<char>, int)> {
    match dec_num_at(s, at) {
        Some((n, at2)) => if at2 + n <= s.len() {
            Some((s.subrange(at2, at2 + n), at2 + n))
        } else {
            None
        },
        None => None,
    }
}

/// Reads a truth tag at `at`.
pub open spec fn dec_bool_at(s: Seq<char>, at: int) -> Option<(bool, int)> {
    if 0 <= at < s.len() {
        if s[at] == 'T' {
            Some((true, at + 1))
        } else if s[at] == 'F' {
            Some((false, at + 1))
        } else {
            None
        }
    } else {
        None
    }
}

/// Reads an optional string at `at`.
pub open spec fn dec_opt_str_at(s: Seq<char>, at: int) -> Option<(Option<Seq<char>>, int)> {
    if 0 <= at < s.len() {
        if s[at] == 'N' {
            Some((None, at + 1))
        } else if s[at] == 'S' {
            match dec_str_at(s, at + 1) {
                Some((x, at2)) => Some((Some(x), at2)),
                None => None,
            }
        } else {
            None
        }
    } else {
        None
    }
}

/// Reads a role tag at `at`.
pub open spec fn dec_role_at(s: Seq<char>, at: int) -> Option<(Role, int)> {
    if 0 <= at < s.len() {
        if s[at] == 'a' {
            Some((Role::Assistant, at + 1))
        } else if s[at] == 's' {
            Some((Role::System, at + 1))
        } else if s[at] == 'u' {
            Some((Role::User, at + 1))
        } else if s[at] == 't' {
            Some((Role::Tool, at + 1))
        } else {
            None
        }
    } else {
        None
    }
}

/// Reads a priority tag at `at`.
pub open spec fn dec_priority_at(s: Seq<char>, at: int) -> Option<(Priority, int)> {
    if 0 <= at < s.len() {
        if s[at] == 'h' {
            Some((Priority::High, at + 1))
        } else if s[at] == 'm' {
            Some((Priority::Medium, at + 1))
        } else if s[at] == 'l' {
            Some((Priority::Low, at + 1))
        } else {
            None
        }
    } else {
        None
    }
}

/// Reads a status tag at `at`.
pub open spec fn dec_status_at(s: Seq<char>, at: int) -> Option<(Status, int)> {
    if 0 <= at < s.len() {
        if s[at] == 'p' {
            Some((Status::Pending, at + 1))
        } else if s[at] == 'i' {
            Some((Status::InProgress, at + 1))
        } else if s[at] == 'c' {
            Some((Status::Completed, at + 1))
        } else {
            None
        }
    } else {
        None
    }
}

/// Reads a signed number at `at`.
pub open spec fn dec_i64_at(s: Seq<char>, at: int) -> Option<(i64, int)> {
    if 0 <= at < s.len() {
        if s[at] == 'P' {
            match dec_hex_at(s, at + 1, 16) {
                Some(v) => if v <= i64::MAX as nat {
                    Some((v as i64, at + 17))
                } else {
                    None
                },
                None => None,
            }
        } else if s[at] == 'M' {
            match dec_hex_at(s, at + 1, 16) {
                Some(v) => if 0 < v <= 0x8000_0000_0000_0000nat {
                    Some(((0 - v as int) as i64, at + 17))
                } else {
                    None
                },
                None => None,
            }
        } else {
            None
        }
    } else {
        None
    }
}

/// Reads one replacement at `at`.
pub open spec fn dec_editop_at(s: Seq<char>, at: int) -> Option<(EditOpModel, int)> {
    match dec_str_at(s, at) {
        Some((o, at2)) => match dec_str_at(s, at2) {
            Some((n, at3)) => match dec_bool_at(s, at3) {
                Some((b, at4)) => Some(
                    (EditOpModel { old_string: o, new_string: n, replace_all: b }, at4),
                ),
                None => None,
            },
            None => None,
        },
        None => None,
    }
}

/// Reads `count` consecutive replacements at `at`.
pub open spec fn dec_edits_at(s: Seq<char>, at: int, count: nat) -> Option<(
    Seq<EditOpModel>,
    int,
)>
    decreases count,
{
    if count == 0 {
        Some((Seq::<EditOpModel>::empty(), at))
    } else {
        match dec_editop_at(s, at) {
            Some((x, at2)) => match dec_edits_at(s, at2, (count - 1) as nat) {
                Some((xs, at3)) => Some((seq![x] + xs, at3)),
                None => None,
            },
            None => None,
        }
    }
}

/// Reads one argument value at `at`.
pub open spec fn dec_argval_at(s: Seq<char>, at: int) -> Option<(ArgValueModel, int)> {
    if 0 <= at < s.len() {
        if s[at] == 's' {
            match dec_str_at(s, at + 1) {
                Some((x, at2)) => Some((ArgValueModel::Str(x), at2)),
                None => None,
            }
        } else if s[at] == 'i' {
            match dec_i64_at(s, at + 1) {
                Some((x, at2)) => Some((ArgValueModel::Int(x), at2)),
                None => None,
            }
        } else if s[at] == 'b' {
            match dec_bool_at(s, at + 1) {
                Some((x, at2)) => Some((ArgValueModel::Bool(x), at2)),
                None => None,
            }
        } else if s[at] == 'e' {
            match dec_num_at(s, at + 1) {
                Some((n, at2)) => match dec_edits_at(s, at2, n as nat) {
                    Some((es, at3)) => Some((ArgValueModel::Edits(es), at3)),
                    None => None,
                },
                None => None,
            }
        } else {
            None
        }
    } else {
        None
    }
}

/// Reads one named argument at `at`.
pub open spec fn dec_pair_at(s: Seq<char>, at: int) -> Option<((Seq<char>, ArgValueModel), int)> {
    match dec_str_at(s, at) {
        Some((k, at2)) => match dec_argval_at(s, at2) {
            Some((v, at3)) => Some(((k, v), at3)),
            None => None,
        },
        None => None,
    }
}

/// Reads `count` consecutive named arguments at `at`.
pub open spec fn dec_pairs_at(s: Seq<char>, at: int, count: nat) -> Option<(
    Seq<(Seq<char>, ArgValueModel)>,
    int,
)>
    decreases count,
{
    if count == 0 {
        Some((Seq::<(Seq<char>, ArgValueModel)>::empty(), at))
    } else {
        match dec_pair_at(s, at) {
            Some((x, at2)) => match dec_pairs_at(s, at2, (count - 1) as nat) {
                Some((xs, at3)) => Some((seq![x] + xs, at3)),
                None => None,
            },
            None => None,
        }
    }
}

/// Reads one tool call at `at`.
pub open spec fn dec_call_at(s: Seq<char>, at: int) -> Option<(CallModel, int)> {
    match dec_opt_str_at(s, at) {
        Some((id, at2)) => match dec_str_at(s, at2) {
            Some((name, at3)) => match dec_num_at(s, at3) {
                Some((n, at4)) => match dec_pairs_at(s, at4, n as nat) {
                    Some((args, at5)) => Some((CallModel { id, name, args }, at5)),
                    None => None,
                },
                None => None,
            },
            None => None,
        },
        None => None,
    }
}

/// Reads `count` consecutive calls at `at`.
pub open spec fn dec_calls_at(s: Seq<char>, at: int, count: nat) -> Option<(Seq<CallModel>, int)>
    decreases count,
{
    if count == 0 {
        Some((Seq::<CallModel>::empty(), at))
    } else {
        match dec_call_at(s, at) {
            Some((x, at2)) => match dec_calls_at(s, at2, (count - 1) as nat) {
                Some((xs, at3)) => Some((seq![x] + xs, at3)),
                None => None,
            },
            None => None,
        }
    }
}

/// Reads one message at `at`.
pub open spec fn dec_msg_at(s: Seq<char>, at: int) -> Option<(MessageModel, int)> {
    match dec_role_at(s, at) {
        Some((role, at2)) => match dec_str_at(s, at2) {
            Some((content, at3)) => match dec_num_at(s, at3) {
                Some((n, at4)) => match dec_calls_at(s, at4, n as nat) {
                    Some((calls, at5)) => match dec_opt_str_at(s, at5) {
                        Some((id, at6)) => match dec_bool_at(s, at6) {
                            Some((err, at7)) => match dec_bool_at(s, at7) {
                                Some((hint, at8)) => Some(
                                    (
                                        MessageModel {
                                            role,
                                            content,
                                            tool_calls: calls,
                                            tool_call_id: id,
                                            error: err,
                                            cache_hint: hint,
                                        },
                                        at8,
                                    ),
                                ),
                                None => None,
                            },
                            None => None,
                        },
                        None => None,
                    },
                    None => None,
                },
                None => None,
            },
            None => None,
        },
        None => None,
    }
}

/// Reads one ledger entry at `at`.
pub open spec fn dec_todo_at(s: Seq<char>, at: int) -> Option<((Seq<char>, TodoModel), int)> {
    match dec_str_at(s, at) {
        Some((k, at2)) => match dec_priority_at(s, at2) {
            Some((p, at3)) => match dec_status_at(s, at3) {
                Some((st, at4)) => match dec_str_at(s, at4) {
                    Some((c, at5)) => Some(
                        ((k, TodoModel { priority: p, status: st, content: c }), at5),
                    ),
                    None => None,
                },
                None => None,
            },
            None => None,
        },
        None => None,
    }
}

/// Reads `count` consecutive messages at `at`.
pub open spec fn dec_msgs_at(s: Seq<char>, at: int, count: nat) -> Option<(
    Seq<MessageModel>,
    int,
)>
    decreases count,
{
    if count == 0 {
        Some((Seq::<MessageModel>::empty(), at))
    } else {
        match dec_msg_at(s, at) {
            Some((x, at2)) => match dec_msgs_at(s, at2, (count - 1) as nat) {
                Some((xs, at3)) => Some((seq![x] + xs, at3)),
                None => None,
            },
            None => None,
        }
    }
}

/// Reads `count` consecutive ledger entries at `at`.
pub open spec fn dec_todos_at(s: Seq<char>, at: int, count: nat) -> Option<(
    Seq<(Seq<char>, TodoModel)>,
    int,
)>
    decreases count,
{
    if count == 0 {
        Some((Seq::<(Seq<char>, TodoModel)>::empty(), at))
    } else {
        match dec_todo_at(s, at) {
            Some((x, at2)) => match dec_todos_at(s, at2, (count - 1) as nat) {
                Some((xs, at3)) => Some((seq![x] + xs, at3)),
                None => None,
            },
            None => None,
        }
    }
}

/// Reads one whole session record at `at`.
pub open spec fn dec_session_at(s: Seq<char>, at: int) -> Option<(SessionModel, int)> {
    match dec_num_at(s, at) {
        Some((nc, at2)) => match dec_msgs_at(s, at2, nc as nat) {
            Some((chat, at3)) => match dec_num_at(s, at3) {
                Some((nt, at4)) => match dec_todos_at(s, at4, nt as nat) {
                    Some((todo, at5)) => match dec_str_at(s, at5) {
                        Some((model, at6)) => match dec_num_at(s, at6) {
                            Some((cost, at7)) => Some(
                                (SessionModel { chat, todo, model, token_cost: cost }, at7),
                            ),
                            None => None,
                        },
                        None => None,
                    },
                    None => None,
                },
                None => None,
            },
            None => None,
        },
        None => None,
    }
}

/// The session record that `t` holds, when `t` is exactly one encoding.
pub open spec fn dec_session(t: Seq<char>) -> Option<SessionModel> {
    match dec_session_at(t, 0) {
        Some((m, p)) => if p == t.len() {
            Some(m)
        } else {
            None
        },
        None => None,
    }
}


/// The first character of an embedded slice.
proof fn lemma_slice_first(s: Seq<char>, at: int, e: Seq<char>)
    requires
        slice_at(s, at, e),
        e.len() > 0,
    ensures
        s[at] == e[0],
{
    assert(s[at + 0] == e[0]);
}

/// Reading placed digits yields the number.
proof fn lemma_dec_num(s: Seq<char>, at: int, n: u64)
    requires
        slice_at(s, at, enc_num(n)),
    ensures
        dec_num_at(s, at) == Some((n, at + 16)),
        enc_num(n).len() == 16,
{
    lemma_pow16_16();
    lemma_enc_hex_len(n as nat, 16);
    lemma_dec_hex(s, at, n as nat, 16);
}

/// Reading a placed string yields the string.
proof fn lemma_dec_str(s: Seq<char>, at: int, x: Seq<char>)
    requires
        bounded_str(x),
        slice_at(s, at, enc_str(x)),
    ensures
        dec_str_at(s, at) == Some((x, at + enc_str(x).len())),
        enc_str(x).len() == 16 + x.len(),
{
    lemma_pow16_16();
    lemma_enc_hex_len(x.len(), 16);
    lemma_slice_split(s, at, enc_hex(x.len(), 16), x);
    lemma_dec_hex(s, at, x.len(), 16);
    assert(s.subrange(at + 16, at + 16 + x.len() as int) =~= x);
}

/// Reading a placed truth tag yields the value.
proof fn lemma_dec_bool(s: Seq<char>, at: int, b: bool)
    requires
        slice_at(s, at, enc_bool(b)),
    ensures
        dec_bool_at(s, at) == Some((b, at + 1)),
        enc_bool(b).len() == 1,
{
    lemma_slice_first(s, at, enc_bool(b));
}

/// Reading a placed optional string yields the value.
proof fn lemma_dec_opt_str(s: Seq<char>, at: int, o: Option<Seq<char>>)
    requires
        (match o {
            Some(x) => bounded_str(x),
            None => true,
        }),
        slice_at(s, at, enc_opt_str(o)),
    ensures
        dec_opt_str_at(s, at) == Some((o, at + enc_opt_str(o).len())),
{
    match o {
        Some(x) => {
            lemma_slice_split(s, at, seq!['S'], enc_str(x));
            lemma_slice_first(s, at, seq!['S']);
            assert(s[at] == 'S');
            lemma_dec_str(s, at + 1, x);
        },
        None => {
            lemma_slice_first(s, at, enc_opt_str(o));
        },
    }
}

/// Reading a placed role tag yields the role.
proof fn lemma_dec_role(s: Seq<char>, at: int, r: Role)
    requires
        slice_at(s, at, enc_role(r)),
    ensures
        dec_role_at(s, at) == Some((r, at + 1)),
        enc_role(r).len() == 1,
{
    lemma_slice_first(s, at, enc_role(r));
}

/// Reading a placed priority tag yields the priority.
proof fn lemma_dec_priority(s: Seq<char>, at: int, p: Priority)
    requires
        slice_at(s, at, enc_priority(p)),
    ensures
        dec_priority_at(s, at) == Some((p, at + 1)),
        enc_priority(p).len() == 1,
{
    lemma_slice_first(s, at, enc_priority(p));
}

/// Reading a placed status tag yields the status.
proof fn lemma_dec_status(s: Seq<char>, at: int, st: Status)
    requires
        slice_at(s, at, enc_status(st)),
    ensures
        dec_status_at(s, at) == Some((st, at + 1)),
        enc_status(st).len() == 1,
{
    lemma_slice_first(s, at, enc_status(st));
}

/// Reading a placed signed number yields the value.
proof fn lemma_dec_i64(s: Seq<char>, at: int, n: i64)
    requires
        slice_at(s, at, enc_i64(n)),
    ensures
        dec_i64_at(s, at) == Some((n, at + 17)),
        enc_i64(n).len() == 17,
{
    lemma_pow16_16();
    if n >= 0 {
        lemma_enc_hex_len(n as nat, 16);
        lemma_slice_split(s, at, seq!['P'], enc_hex(n as nat, 16));
        lemma_slice_first(s, at, seq!['P']);
        assert(s[at] == 'P');
        lemma_dec_hex(s, at + 1, n as nat, 16);
    } else {
        let m = (-(n as int)) as nat;
        lemma_enc_hex_len(m, 16);
        lemma_slice_split(s, at, seq!['M'], enc_hex(m, 16));
        lemma_slice_first(s, at, seq!['M']);
        assert(s[at] == 'M');
        lemma_dec_hex(s, at + 1, m, 16);
    }
}

/// Reading a placed replacement yields the replacement.
proof fn lemma_dec_editop(s: Seq<char>, at: int, e: EditOpModel)
    requires
        bounded_str(e.old_string),
        bounded_str(e.new_string),
        slice_at(s, at, enc_editop(e)),
    ensures
        dec_editop_at(s, at) == Some((e, at + enc_editop(e).len())),
{
    lemma_slice_split(s, at, enc_str(e.old_string) + enc_str(e.new_string), enc_bool(
        e.replace_all,
    ));
    lemma_slice_split(s, at, enc_str(e.old_string), enc_str(e.new_string));
    lemma_dec_str(s, at, e.old_string);
    lemma_dec_str(s, at + enc_str(e.old_string).len(), e.new_string);
    lemma_dec_bool(
        s,
        at + enc_str(e.old_string).len() + enc_str(e.new_string).len(),
        e.replace_all,
    );
}

/// Reading placed replacements yields them all.
proof fn lemma_dec_edits(s: Seq<char>, at: int, es: Seq<EditOpModel>)
    requires
        bounded_argval(ArgValueModel::Edits(es)),
        slice_at(s, at, enc_edits(es)),
    ensures
        dec_edits_at(s, at, es.len()) == Some((es, at + enc_edits(es).len())),
    decreases es.len(),
{
    if es.len() > 0 {
        lemma_slice_split(s, at, enc_editop(es[0]), enc_edits(es.skip(1)));
        assert(bounded_str(es[0].old_string) && bounded_str(es[0].new_string));
        lemma_dec_editop(s, at, es[0]);
        assert forall|i: int|
            0 <= i < es.skip(1).len() implies bounded_str(
            #[trigger] es.skip(1)[i].old_string,
        ) && bounded_str(es.skip(1)[i].new_string) by {
            assert(es.skip(1)[i] == es[i + 1]);
            assert(bounded_str(es[i + 1].old_string) && bounded_str(es[i + 1].new_string));
        }
        assert(bounded_argval(ArgValueModel::Edits(es.skip(1))));
        lemma_dec_edits(s, at + enc_editop(es[0]).len(), es.skip(1));
        assert(seq![es[0]] + es.skip(1) =~= es);
    }
}

/// Reading a placed argument value yields the value.
#[verifier::rlimit(100)]
#[verifier::spinoff_prover]
proof fn lemma_dec_argval(s: Seq<char>, at: int, v: ArgValueModel)
    requires
        bounded_argval(v),
        slice_at(s, at, enc_argval(v)),
    ensures
        dec_argval_at(s, at) == Some((v, at + enc_argval(v).len())),
{
    lemma_pow16_16();
    match v {
        ArgValueModel::Str(x) => {
            lemma_slice_split(s, at, seq!['s'], enc_str(x));
            lemma_slice_first(s, at, seq!['s']);
            assert(s[at] == 's');
            lemma_dec_str(s, at + 1, x);
        },
        ArgValueModel::Int(n) => {
            lemma_slice_split(s, at, seq!['i'], enc_i64(n));
            lemma_slice_first(s, at, seq!['i']);
            assert(s[at] == 'i');
            lemma_dec_i64(s, at + 1, n);
        },
        ArgValueModel::Bool(b) => {
            lemma_slice_split(s, at, seq!['b'], enc_bool(b));
            lemma_slice_first(s, at, seq!['b']);
            assert(s[at] == 'b');
            lemma_dec_bool(s, at + 1, b);
        },
        ArgValueModel::Edits(es) => {
            lemma_enc_hex_len(es.len(), 16);
            lemma_slice_split(s, at, seq!['e'] + enc_hex(es.len(), 16), enc_edits(es));
            lemma_slice_split(s, at, seq!['e'], enc_hex(es.len(), 16));
            lemma_slice_first(s, at, seq!['e']);
            assert(s[at] == 'e');
            lemma_dec_hex(s, at + 1, es.len(), 16);
            assert(bounded_argval(ArgValueModel::Edits(es)));
            lemma_dec_edits(s, at + 17, es);
        },
    }
}

/// Reading a placed named argument yields it.
proof fn lemma_dec_pair(s: Seq<char>, at: int, p: (Seq<char>, ArgValueModel))
    requires
        bounded_str(p.0),
        bounded_argval(p.1),
        slice_at(s, at, enc_pair(p)),
    ensures
        dec_pair_at(s, at) == Some((p, at + enc_pair(p).len())),
{
    lemma_slice_split(s, at, enc_str(p.0), enc_argval(p.1));
    lemma_dec_str(s, at, p.0);
    lemma_dec_argval(s, at + enc_str(p.0).len(), p.1);
}

/// Reading placed named arguments yields them all.
proof fn lemma_dec_pairs(s: Seq<char>, at: int, ps: Seq<(Seq<char>, ArgValueModel)>)
    requires
        forall|i: int|
            0 <= i < ps.len() ==> bounded_str(#[trigger] ps[i].0) && bounded_argval(ps[i].1),
        slice_at(s, at, enc_pairs(ps)),
    ensures
        dec_pairs_at(s, at, ps.len()) == Some((ps, at + enc_pairs(ps).len())),
    decreases ps.len(),
{
    if ps.len() > 0 {
        lemma_slice_split(s, at, enc_pair(ps[0]), enc_pairs(ps.skip(1)));
        lemma_dec_pair(s, at, ps[0]);
        assert forall|i: int|
            0 <= i < ps.skip(1).len() implies bounded_str(#[trigger] ps.skip(1)[i].0)
            && bounded_argval(ps.skip(1)[i].1) by {
            assert(ps.skip(1)[i] == ps[i + 1]);
            assert(bounded_str(ps[i + 1].0) && bounded_argval(ps[i + 1].1));
        }
        lemma_dec_pairs(s, at + enc_pair(ps[0]).len(), ps.skip(1));
        assert(seq![ps[0]] + ps.skip(1) =~= ps);
    }
}

/// Reading a placed call yields the call.
proof fn lemma_dec_call(s: Seq<char>, at: int, c: CallModel)
    requires
        bounded_call(c),
        slice_at(s, at, enc_call(c)),
    ensures
        dec_call_at(s, at) == Some((c, at + enc_call(c).len())),
{
    lemma_pow16_16();
    lemma_enc_hex_len(c.args.len(), 16);
    lemma_slice_split(
        s,
        at,
        enc_opt_str(c.id) + enc_str(c.name) + enc_hex(c.args.len(), 16),
        enc_pairs(c.args),
    );
    lemma_slice_split(s, at, enc_opt_str(c.id) + enc_str(c.name), enc_hex(c.args.len(), 16));
    lemma_slice_split(s, at, enc_opt_str(c.id), enc_str(c.name));
    lemma_dec_opt_str(s, at, c.id);
    let a2 = at + enc_opt_str(c.id).len();
    lemma_dec_str(s, a2, c.name);
    let a3 = a2 + enc_str(c.name).len();
    lemma_dec_hex(s, a3, c.args.len(), 16);
    let a4 = a3 + 16;
    lemma_dec_pairs(s, a4, c.args);
}

/// Reading placed calls yields them all.
proof fn lemma_dec_calls(s: Seq<char>, at: int, cs: Seq<CallModel>)
    requires
        forall|i: int| 0 <= i < cs.len() ==> bounded_call(#[trigger] cs[i]),
        slice_at(s, at, enc_calls(cs)),
    ensures
        dec_calls_at(s, at, cs.len()) == Some((cs, at + enc_calls(cs).len())),
    decreases cs.len(),
{
    if cs.len() > 0 {
        lemma_slice_split(s, at, enc_call(cs[0]), enc_calls(cs.skip(1)));
        lemma_dec_call(s, at, cs[0]);
        assert forall|i: int|
            0 <= i < cs.skip(1).len() implies bounded_call(#[trigger] cs.skip(1)[i]) by {
            assert(cs.skip(1)[i] == cs[i + 1]);
            assert(bounded_call(cs[i + 1]));
        }
        lemma_dec_calls(s, at + enc_call(cs[0]).len(), cs.skip(1));
        assert(seq![cs[0]] + cs.skip(1) =~= cs);
    }
}

/// Reading a placed message yields the message.
proof fn lemma_dec_msg(s: Seq<char>, at: int, m: MessageModel)
    requires
        bounded_msg(m),
        slice_at(s, at, enc_msg(m)),
    ensures
        dec_msg_at(s, at) == Some((m, at + enc_msg(m).len())),
{
    lemma_pow16_16();
    lemma_enc_hex_len(m.tool_calls.len(), 16);
    let e1 = enc_role(m.role);
    let e2 = enc_str(m.content);
    let e3 = enc_hex(m.tool_calls.len(), 16);
    let e4 = enc_calls(m.tool_calls);
    let e5 = enc_opt_str(m.tool_call_id);
    let e6 = enc_bool(m.error);
    let e7 = enc_bool(m.cache_hint);
    lemma_slice_split(s, at, e1 + e2 + e3 + e4 + e5 + e6, e7);
    lemma_slice_split(s, at, e1 + e2 + e3 + e4 + e5, e6);
    lemma_slice_split(s, at, e1 + e2 + e3 + e4, e5);
    lemma_slice_split(s, at, e1 + e2 + e3, e4);
    lemma_slice_split(s, at, e1 + e2, e3);
    lemma_slice_split(s, at, e1, e2);
    lemma_dec_role(s, at, m.role);
    let a2 = at + e1.len();
    lemma_dec_str(s, a2, m.content);
    let a3 = a2 + e2.len();
    lemma_dec_hex(s, a3, m.tool_calls.len(), 16);
    let a4 = a3 + 16;
    lemma_dec_calls(s, a4, m.tool_calls);
    let a5 = a4 + e4.len();
    lemma_dec_opt_str(s, a5, m.tool_call_id);
    let a6 = a5 + e5.len();
    lemma_dec_bool(s, a6, m.error);
    let a7 = a6 + 1;
    lemma_dec_bool(s, a7, m.cache_hint);
}

/// Reading placed messages yields them all.
proof fn lemma_dec_msgs(s: Seq<char>, at: int, ms: Seq<MessageModel>)
    requires
        forall|i: int| 0 <= i < ms.len() ==> bounded_msg(#[trigger] ms[i]),
        slice_at(s, at, enc_msgs(ms)),
    ensures
        dec_msgs_at(s, at, ms.len()) == Some((ms, at + enc_msgs(ms).len())),
    decreases ms.len(),
{
    if ms.len() > 0 {
        lemma_slice_split(s, at, enc_msg(ms[0]), enc_msgs(ms.skip(1)));
        lemma_dec_msg(s, at, ms[0]);
        assert forall|i: int|
            0 <= i < ms.skip(1).len() implies bounded_msg(#[trigger] ms.skip(1)[i]) by {
            assert(ms.skip(1)[i] == ms[i + 1]);
            assert(bounded_msg(ms[i + 1]));
        }
        lemma_dec_msgs(s, at + enc_msg(ms[0]).len(), ms.skip(1));
        assert(seq![ms[0]] + ms.skip(1) =~= ms);
    }
}

/// Reading a placed ledger entry yields the entry.
proof fn lemma_dec_todo(s: Seq<char>, at: int, e: (Seq<char>, TodoModel))
    requires
        bounded_str(e.0),
        bounded_str(e.1.content),
        slice_at(s, at, enc_todo(e)),
    ensures
        dec_todo_at(s, at) == Some((e, at + enc_todo(e).len())),
{
    let e1 = enc_str(e.0);
    let e2 = enc_priority(e.1.priority);
    let e3 = enc_status(e.1.status);
    let e4 = enc_str(e.1.content);
    lemma_slice_split(s, at, e1 + e2 + e3, e4);
    lemma_slice_split(s, at, e1 + e2, e3);
    lemma_slice_split(s, at, e1, e2);
    lemma_dec_str(s, at, e.0);
    let a2 = at + e1.len();
    lemma_dec_priority(s, a2, e.1.priority);
    let a3 = a2 + 1;
    lemma_dec_status(s, a3, e.1.status);
    let a4 = a3 + 1;
    lemma_dec_str(s, a4, e.1.content);
}

/// Reading placed ledger entries yields them all.
proof fn lemma_dec_todos(s: Seq<char>, at: int, ts: Seq<(Seq<char>, TodoModel)>)
    requires
        forall|i: int|
            0 <= i < ts.len() ==> bounded_str(#[trigger] ts[i].0) && bounded_str(ts[i].1.content),
        slice_at(s, at, enc_todos(ts)),
    ensures
        dec_todos_at(s, at, ts.len()) == Some((ts, at + enc_todos(ts).len())),
    decreases ts.len(),
{
    if ts.len() > 0 {
        lemma_slice_split(s, at, enc_todo(ts[0]), enc_todos(ts.skip(1)));
        lemma_dec_todo(s, at, ts[0]);
        assert forall|i: int|
            0 <= i < ts.skip(1).len() implies bounded_str(#[trigger] ts.skip(1)[i].0)
            && bounded_str(ts.skip(1)[i].1.content) by {
            assert(ts.skip(1)[i] == ts[i + 1]);
            assert(bounded_str(ts[i + 1].0) && bounded_str(ts[i + 1].1.content));
        }
        lemma_dec_todos(s, at + enc_todo(ts[0]).len(), ts.skip(1));
        assert(seq![ts[0]] + ts.skip(1) =~= ts);
    }
}

/// The round-trip law of the persisted record: decoding an encoding
/// yields exactly the encoded record, so saving, loading and saving again
/// writes the same text.
pub proof fn lemma_session_roundtrip(m: SessionModel)
    requires
        bounded_session(m),
    ensures
        dec_session(enc_session(m)) == Some(m),
{
    let s = enc_session(m);
    lemma_pow16_16();
    lemma_enc_hex_len(m.chat.len(), 16);
    lemma_enc_hex_len(m.todo.len(), 16);
    let e1 = enc_hex(m.chat.len(), 16);
    let e2 = enc_msgs(m.chat);
    let e3 = enc_hex(m.todo.len(), 16);
    let e4 = enc_todos(m.todo);
    let e5 = enc_str(m.model);
    let e6 = enc_num(m.token_cost);
    assert(slice_at(s, 0, s)) by {
        assert forall|i: int| 0 <= i < s.len() implies s[0 + i] == #[trigger] s[i] by {}
    }
    lemma_slice_split(s, 0, e1 + e2 + e3 + e4 + e5, e6);
    lemma_slice_split(s, 0, e1 + e2 + e3 + e4, e5);
    lemma_slice_split(s, 0, e1 + e2 + e3, e4);
    lemma_slice_split(s, 0, e1 + e2, e3);
    lemma_slice_split(s, 0, e1, e2);
    lemma_dec_hex(s, 0, m.chat.len(), 16);
    let a2 = e1.len() as int;
    lemma_dec_msgs(s, a2, m.chat);
    let a3 = a2 + e2.len();
    lemma_dec_hex(s, a3, m.todo.len(), 16);
    let a4 = a3 + 16;
    lemma_dec_todos(s, a4, m.todo);
    let a5 = a4 + e4.len();
    lemma_dec_str(s, a5, m.model);
    let a6 = a5 + e5.len();
    lemma_dec_num(s, a6, m.token_cost);
}

/// Writes a length-prefixed string after `out`.
fn push_str_enc(out: &mut Vec<char>, s: &str)
    ensures
        final(out)@ == old(out)@ + enc_str(s@),
        bounded_str(s@),
{
    let n = s.unicode_len();
    proof {
        lemma_pow16_16();
    }
    enc_num_push(out, n as u64);
    let sc = crate::strutil::chars_of(s);
    crate::textutil::append_chars(out, &sc);
    proof {
        assert(old(out)@ + enc_str(s@) =~= (old(out)@ + enc_hex(s@.len(), 16)) + s@);
    }
}

/// Writes a truth tag after `out`.
fn push_bool_enc(out: &mut Vec<char>, b: bool)
    ensures
        final(out)@ == old(out)@ + enc_bool(b),
{
    if b {
        out.push('T');
    } else {
        out.push('F');
    }
    proof {
        assert(final(out)@ =~= old(out)@ + enc_bool(b));
    }
}

/// Writes an optional string after `out`.
fn push_opt_str_enc(out: &mut Vec<char>, o: &Option<String>)
    ensures
        final(out)@ == old(out)@ + enc_opt_str(crate::tools::id_model(o)),
        (match o {
            Some(x) => bounded_str(x@),
            None => true,
        }),
{
    match o {
        Some(x) => {
            out.push('S');
            let ghost mid = out@;
            push_str_enc(out, x.as_str());
            proof {
                assert(out@ =~= old(out)@ + (seq!['S'] + enc_str(x@)));
            }
        },
        None => {
            out.push('N');
            proof {
                assert(out@ =~= old(out)@ + seq!['N']);
            }
        },
    }
}

/// Writes a role tag after `out`.
fn push_role_enc(out: &mut Vec<char>, r: Role)
    ensures
        final(out)@ == old(out)@ + enc_role(r),
{
    match r {
        Role::Assistant => out.push('a'),
        Role::System => out.push('s'),
        Role::User => out.push('u'),
        Role::Tool => out.push('t'),
    }
    proof {
        assert(final(out)@ =~= old(out)@ + enc_role(r));
    }
}

/// Writes a priority tag after `out`.
fn push_priority_enc(out: &mut Vec<char>, p: Priority)
    ensures
        final(out)@ == old(out)@ + enc_priority(p),
{
    match p {
        Priority::High => out.push('h'),
        Priority::Medium => out.push('m'),
        Priority::Low => out.push('l'),
    }
    proof {
        assert(final(out)@ =~= old(out)@ + enc_priority(p));
    }
}

/// Writes a status tag after `out`.
fn push_status_enc(out: &mut Vec<char>, st: Status)
    ensures
        final(out)@ == old(out)@ + enc_status(st),
{
    match st {
        Status::Pending => out.push('p'),
        Status::InProgress => out.push('i'),
        Status::Completed => out.push('c'),
    }
    proof {
        assert(final(out)@ =~= old(out)@ + enc_status(st));
    }
}

/// Writes a signed number after `out`.
fn push_i64_enc(out: &mut Vec<char>, n: i64)
    ensures
        final(out)@ == old(out)@ + enc_i64(n),
{
    if n >= 0 {
        out.push('P');
        let ghost mid = out@;
        enc_num_push(out, n as u64);
        proof {
            assert(out@ =~= old(out)@ + (seq!['P'] + enc_hex(n as nat, 16)));
        }
    } else {
        out.push('M');
        let mag: u64 = if n == i64::MIN {
            0x8000_0000_0000_0000u64
        } else {
            (-n) as u64
        };
        proof {
            assert(mag as nat == (-(n as int)) as nat);
        }
        enc_num_push(out, mag);
        proof {
            assert(out@ =~= old(out)@ + (seq!['M'] + enc_hex((-(n as int)) as nat, 16)));
        }
    }
}

/// Writes one replacement after `out`.
fn push_editop_enc(out: &mut Vec<char>, e: &EditOp)
    ensures
        final(out)@ == old(out)@ + enc_editop(e@),
        bounded_str(e@.old_string),
        bounded_str(e@.new_string),
{
    push_str_enc(out, e.old_string.as_str());
    push_str_enc(out, e.new_string.as_str());
    push_bool_enc(out, e.replace_all);
    proof {
        assert(final(out)@ =~= old(out)@ + enc_editop(e@));
    }
}

/// Writes one argument value after `out`.
fn push_argval_enc(out: &mut Vec<char>, v: &ArgValue)
    ensures
        final(out)@ == old(out)@ + enc_argval(v@),
        bounded_argval(v@),
{
    match v {
        ArgValue::Str(x) => {
            out.push('s');
            push_str_enc(out, x.as_str());
            proof {
                assert(out@ =~= old(out)@ + (seq!['s'] + enc_str(x@)));
            }
        },
        ArgValue::Int(n) => {
            out.push('i');
            push_i64_enc(out, *n);
            proof {
                assert(out@ =~= old(out)@ + (seq!['i'] + enc_i64(*n)));
            }
        },
        ArgValue::Bool(b) => {
            out.push('b');
            push_bool_enc(out, *b);
            proof {
                assert(out@ =~= old(out)@ + (seq!['b'] + enc_bool(*b)));
            }
        },
        ArgValue::Edits(es) => {
            let ghost models = es@.map_values(|e: EditOp| e@);
            out.push('e');
            let n = es.len();
            proof {
                lemma_pow16_16();
            }
            enc_num_push(out, n as u64);
            let ghost base = out@;
            let mut i: usize = 0;
            proof {
                assert(models.skip(0) =~= models);
                assert(base + Seq::<char>::empty() =~= base);
            }
            while i < n
                invariant
                    n == es@.len(),
                    models == es@.map_values(|e: EditOp| e@),
                    i <= n,
                    out@ + enc_edits(models.skip(i as int)) =~= base + enc_edits(models),
                    forall|j: int|
                        0 <= j < i ==> bounded_str((#[trigger] models[j]).old_string)
                            && bounded_str(models[j].new_string),
                decreases n - i,
            {
                let ghost rest = models.skip(i as int);
                proof {
                    assert(rest[0] == models[i as int]);
                    assert(rest.skip(1) =~= models.skip(i + 1int));
                }
                push_editop_enc(out, &es[i]);
                proof {
                    assert(models[i as int] == es@[i as int]@);
                    assert(bounded_str(models[i as int].old_string) && bounded_str(
                        models[i as int].new_string,
                    ));
                    assert(enc_edits(rest) == enc_editop(models[i as int]) + enc_edits(
                        models.skip(i + 1int),
                    ));
                    assert(out@ + enc_edits(models.skip(i + 1int)) =~= base + enc_edits(models));
                }
                i += 1;
            }
            proof {
                assert(models.skip(n as int) =~= Seq::<EditOpModel>::empty());
                assert(out@ =~= out@ + enc_edits(models.skip(n as int)));
                assert(out@ =~= old(out)@ + (seq!['e'] + enc_hex(models.len(), 16) + enc_edits(
                    models,
                )));
            }
        },
    }
}

/// Writes one named argument after `out`.
fn push_pair_enc(out: &mut Vec<char>, p: &(String, ArgValue))
    ensures
        final(out)@ == old(out)@ + enc_pair((p.0@, p.1@)),
        bounded_str(p.0@),
        bounded_argval(p.1@),
{
    push_str_enc(out, p.0.as_str());
    push_argval_enc(out, &p.1);
    proof {
        assert(final(out)@ =~= old(out)@ + enc_pair((p.0@, p.1@)));
    }
}

/// Writes one tool call after `out`.
fn push_call_enc(out: &mut Vec<char>, c: &FunctionCall)
    ensures
        final(out)@ == old(out)@ + enc_call(c@),
        bounded_call(c@),
{
    push_opt_str_enc(out, &c.id);
    push_str_enc(out, c.name.as_str());
    let ghost models = c.args@;
    let n = c.args.0.len();
    proof {
        lemma_pow16_16();
        assert(models.len() == n);
    }
    enc_num_push(out, n as u64);
    let ghost base = out@;
    let mut i: usize = 0;
    proof {
        assert(models.skip(0) =~= models);
        assert(base + Seq::<char>::empty() =~= base);
    }
    while i < n
        invariant
            n == c.args.0@.len(),
            models == c.args@,
            i <= n,
            out@ + enc_pairs(models.skip(i as int)) =~= base + enc_pairs(models),
            bounded_str(c.name@),
            (match c.id {
                Some(x) => bounded_str(x@),
                None => true,
            }),
            forall|j: int|
                0 <= j < i ==> bounded_str((#[trigger] models[j]).0) && bounded_argval(
                    models[j].1,
                ),
        decreases n - i,
    {
        let ghost rest = models.skip(i as int);
        proof {
            assert(rest[0] == models[i as int]);
            assert(rest.skip(1) =~= models.skip(i + 1int));
        }
        push_pair_enc(out, &c.args.0[i]);
        proof {
            assert(models[i as int] == (c.args.0@[i as int].0@, c.args.0@[i as int].1@));
            assert(bounded_str(models[i as int].0) && bounded_argval(models[i as int].1));
            assert(enc_pairs(rest) == enc_pair(models[i as int]) + enc_pairs(
                models.skip(i + 1int),
            ));
            assert(out@ + enc_pairs(models.skip(i + 1int)) =~= base + enc_pairs(models));
        }
        i += 1;
    }
    proof {
        lemma_pow16_16();
        assert(models.skip(n as int) =~= Seq::<(Seq<char>, ArgValueModel)>::empty());
        assert(out@ =~= out@ + enc_pairs(models.skip(n as int)));
        assert(out@ =~= old(out)@ + enc_call(c@));
        assert forall|j: int|
            0 <= j < c@.args.len() implies bounded_str(#[trigger] c@.args[j].0)
            && bounded_argval(c@.args[j].1) by {
            assert(c@.args[j] == models[j]);
        }
    }
}

/// Writes one message after `out`.
fn push_msg_enc(out: &mut Vec<char>, m: &Message)
    ensures
        final(out)@ == old(out)@ + enc_msg(m@),
        bounded_msg(m@),
{
    push_role_enc(out, m.role);
    push_str_enc(out, m.content.as_str());
    let ghost models = m@.tool_calls;
    let n = m.tool_calls.len();
    proof {
        lemma_pow16_16();
        assert(models.len() == n);
    }
    enc_num_push(out, n as u64);
    let ghost base = out@;
    let mut i: usize = 0;
    proof {
        assert(models.skip(0) =~= models);
        assert(base + Seq::<char>::empty() =~= base);
    }
    while i < n
        invariant
            n == m.tool_calls@.len(),
            models == m@.tool_calls,
            i <= n,
            out@ + enc_calls(models.skip(i as int)) =~= base + enc_calls(models),
            bounded_str(m.content@),
            forall|j: int| 0 <= j < i ==> bounded_call(#[trigger] models[j]),
        decreases n - i,
    {
        let ghost rest = models.skip(i as int);
        proof {
            assert(rest[0] == models[i as int]);
            assert(rest.skip(1) =~= models.skip(i + 1int));
        }
        push_call_enc(out, &m.tool_calls[i]);
        proof {
            assert(models[i as int] == m.tool_calls@[i as int]@);
            assert(bounded_call(models[i as int]));
            assert(enc_calls(rest) == enc_call(models[i as int]) + enc_calls(
                models.skip(i + 1int),
            ));
            assert(out@ + enc_calls(models.skip(i + 1int)) =~= base + enc_calls(models));
        }
        i += 1;
    }
    proof {
        lemma_pow16_16();
        assert(models.skip(n as int) =~= Seq::<CallModel>::empty());
        assert(out@ =~= out@ + enc_calls(models.skip(n as int)));
        assert forall|j: int|
            0 <= j < m@.tool_calls.len() implies bounded_call(#[trigger] m@.tool_calls[j]) by {
            assert(m@.tool_calls[j] == models[j]);
        }
    }
    push_opt_str_enc(out, &m.tool_call_id);
    push_bool_enc(out, m.error);
    push_bool_enc(out, m.cache_hint);
    proof {
        assert(final(out)@ =~= old(out)@ + enc_msg(m@));
    }
}

/// Writes one ledger entry after `out`.
fn push_todo_enc(out: &mut Vec<char>, e: &(String, TodoItem))
    ensures
        final(out)@ == old(out)@ + enc_todo((e.0@, e.1@)),
        bounded_str(e.0@),
        bounded_str(e.1@.content),
{
    push_str_enc(out, e.0.as_str());
    push_priority_enc(out, e.1.priority);
    push_status_enc(out, e.1.status);
    push_str_enc(out, e.1.content.as_str());
    proof {
        assert(final(out)@ =~= old(out)@ + enc_todo((e.0@, e.1@)));
    }
}

/// The persisted session record: the conversation, the ledger snapshot,
/// the model identifier, and the accumulated token cost.
#[derive(Debug)]
pub struct SessionSaveState {
    pub chat: Vec<Message>,
    pub todo: Vec<(String, TodoItem)>,
    pub model: String,
    pub token_cost: u64,
}

impl View for SessionSaveState {
    type V = SessionModel;

    open spec fn view(&self) -> SessionModel {
        SessionModel {
            chat: self.chat@.map_values(|m: Message| m@),
            todo: self.todo@.map_values(|e: (String, TodoItem)| (e.0@, e.1@)),
            model: self.model@,
            token_cost: self.token_cost,
        }
    }
}

impl SessionSaveState {
    /// Writes the record as one text, exactly the specified encoding.
    pub fn save(&self) -> (r: String)
        ensures
            r@ == enc_session(self@),
            bounded_session(self@),
    {
        let mut out: Vec<char> = Vec::new();
        let ghost chat_models = self@.chat;
        let ghost todo_models = self@.todo;
        let nc = self.chat.len();
        proof {
            lemma_pow16_16();
            assert(chat_models.len() == nc);
        }
        enc_num_push(&mut out, nc as u64);
        let ghost base = out@;
        let mut i: usize = 0;
        proof {
            assert(chat_models.skip(0) =~= chat_models);
            assert(base + Seq::<char>::empty() =~= base);
        }
        while i < nc
            invariant
                nc == self.chat@.len(),
                chat_models == self@.chat,
                i <= nc,
                out@ + enc_msgs(chat_models.skip(i as int)) =~= base + enc_msgs(chat_models),
                forall|j: int| 0 <= j < i ==> bounded_msg(#[trigger] chat_models[j]),
            decreases nc - i,
        {
            let ghost rest = chat_models.skip(i as int);
            proof {
                assert(rest[0] == chat_models[i as int]);
                assert(rest.skip(1) =~= chat_models.skip(i + 1int));
            }
            push_msg_enc(&mut out, &self.chat[i]);
            proof {
                assert(chat_models[i as int] == self.chat@[i as int]@);
                assert(bounded_msg(chat_models[i as int]));
                assert(enc_msgs(rest) == enc_msg(chat_models[i as int]) + enc_msgs(
                    chat_models.skip(i + 1int),
                ));
                assert(out@ + enc_msgs(chat_models.skip(i + 1int)) =~= base + enc_msgs(
                    chat_models,
                ));
            }
            i += 1;
        }
        proof {
            assert(chat_models.skip(nc as int) =~= Seq::<MessageModel>::empty());
            assert(out@ =~= out@ + enc_msgs(chat_models.skip(nc as int)));
        }
        let nt = self.todo.len();
        proof {
            assert(todo_models.len() == nt);
        }
        enc_num_push(&mut out, nt as u64);
        let ghost base2 = out@;
        let mut k: usize = 0;
        proof {
            assert(todo_models.skip(0) =~= todo_models);
            assert(base2 + Seq::<char>::empty() =~= base2);
        }
        while k < nt
            invariant
                nt == self.todo@.len(),
                todo_models == self@.todo,
                chat_models == self@.chat,
                forall|j: int| 0 <= j < chat_models.len() ==> bounded_msg(#[trigger] chat_models[j]),
                k <= nt,
                out@ + enc_todos(todo_models.skip(k as int)) =~= base2 + enc_todos(todo_models),
                forall|j: int|
                    0 <= j < k ==> bounded_str(#[trigger] todo_models[j].0) && bounded_str(
                        todo_models[j].1.content,
                    ),
            decreases nt - k,
        {
            let ghost rest = todo_models.skip(k as int);
            proof {
                assert(rest[0] == todo_models[k as int]);
                assert(rest.skip(1) =~= todo_models.skip(k + 1int));
            }
            push_todo_enc(&mut out, &self.todo[k]);
            proof {
                assert(todo_models[k as int] == (self.todo@[k as int].0@, self.todo@[k as int].1@));
                assert(bounded_str(todo_models[k as int].0) && bounded_str(
                    todo_models[k as int].1.content,
                ));
                assert(enc_todos(rest) == enc_todo(todo_models[k as int]) + enc_todos(
                    todo_models.skip(k + 1int),
                ));
                assert(out@ + enc_todos(todo_models.skip(k + 1int)) =~= base2 + enc_todos(
                    todo_models,
                ));
            }
            k += 1;
        }
        proof {
            assert(todo_models.skip(nt as int) =~= Seq::<(Seq<char>, TodoModel)>::empty());
            assert(out@ =~= out@ + enc_todos(todo_models.skip(nt as int)));
        }
        push_str_enc(&mut out, self.model.as_str());
        enc_num_push(&mut out, self.token_cost);
        proof {
            lemma_pow16_16();
            assert(out@ =~= enc_session(self@));
            assert forall|j: int|
                0 <= j < self@.chat.len() implies bounded_msg(#[trigger] self@.chat[j]) by {
                assert(self@.chat[j] == chat_models[j]);
            }
            assert forall|j: int|
                0 <= j < self@.todo.len() implies bounded_str(#[trigger] self@.todo[j].0)
                && bounded_str(self@.todo[j].1.content) by {
                assert(self@.todo[j] == todo_models[j]);
            }
        }
        crate::strutil::string_from_chars(&out)
    }
}

/// The characters of `sc` between `a` and `b`.
fn take_range(sc: &Vec<char>, a: usize, b: usize) -> (r: Vec<char>)
    requires
        a <= b <= sc@.len(),
    ensures
        r@ == sc@.subrange(a as int, b as int),
{
    let mut out: Vec<char> = Vec::new();
    let mut i: usize = a;
    while i < b
        invariant
            a <= i <= b <= sc@.len(),
            out@ == sc@.subrange(a as int, i as int),
        decreases b - i,
    {
        out.push(sc[i]);
        proof {
            assert(sc@.subrange(a as int, i + 1int) =~= sc@.subrange(a as int, i as int).push(
                sc@[i as int],
            ));
        }
        i += 1;
    }
    out
}

/// Reads a number.
fn dec_num_exec(sc: &Vec<char>, at: usize) -> (r: Option<(u64, usize)>)
    requires
        at <= sc@.len(),
    ensures
        (match r {
            Some((v, p)) => dec_num_at(sc@, at as int) == Some((v, p as int)) && p == at + 16
                && p <= sc@.len(),
            None => dec_num_at(sc@, at as int) is None,
        }),
{
    let n = sc.len();
    if n - at < 16 {
        proof {
            assert(dec_hex_at(sc@, at as int, 16) is None);
        }
        return None;
    }
    match dec_hex_exec(sc, at, 16) {
        Some(v) => Some((v, at + 16)),
        None => None,
    }
}

/// Reads a length-prefixed string.
fn dec_str_exec(sc: &Vec<char>, at: usize) -> (r: Option<(String, usize)>)
    requires
        at <= sc@.len(),
    ensures
        (match r {
            Some((v, p)) => dec_str_at(sc@, at as int) == Some((v@, p as int)) && at <= p
                <= sc@.len(),
            None => dec_str_at(sc@, at as int) is None,
        }),
{
    let n = sc.len();
    match dec_num_exec(sc, at) {
        Some((len, at2)) => {
            if len <= (n - at2) as u64 {
                let end = at2 + len as usize;
                let piece = take_range(sc, at2, end);
                Some((crate::strutil::string_from_chars(&piece), end))
            } else {
                None
            }
        },
        None => None,
    }
}

/// Reads a truth tag.
fn dec_bool_exec(sc: &Vec<char>, at: usize) -> (r: Option<(bool, usize)>)
    requires
        at <= sc@.len(),
    ensures
        (match r {
            Some((v, p)) => dec_bool_at(sc@, at as int) == Some((v, p as int)) && at < p
                <= sc@.len(),
            None => dec_bool_at(sc@, at as int) is None,
        }),
{
    let n = sc.len();
    if at < n {
        let c = sc[at];
        if c == 'T' {
            Some((true, at + 1))
        } else if c == 'F' {
            Some((false, at + 1))
        } else {
            None
        }
    } else {
        None
    }
}

/// Reads an optional string.
fn dec_opt_str_exec(sc: &Vec<char>, at: usize) -> (r: Option<(Option<String>, usize)>)
    requires
        at <= sc@.len(),
    ensures
        (match r {
            Some((v, p)) => dec_opt_str_at(sc@, at as int) == Some(
                (crate::tools::id_model(&v), p as int),
            ) && at < p <= sc@.len(),
            None => dec_opt_str_at(sc@, at as int) is None,
        }),
{
    let n = sc.len();
    if at < n {
        let c = sc[at];
        if c == 'N' {
            Some((None, at + 1))
        } else if c == 'S' {
            match dec_str_exec(sc, at + 1) {
                Some((x, p)) => Some((Some(x), p)),
                None => None,
            }
        } else {
            None
        }
    } else {
        None
    }
}

/// Reads a role tag.
fn dec_role_exec(sc: &Vec<char>, at: usize) -> (r: Option<(Role, usize)>)
    requires
        at <= sc@.len(),
    ensures
        (match r {
            Some((v, p)) => dec_role_at(sc@, at as int) == Some((v, p as int)) && at < p
                <= sc@.len(),
            None => dec_role_at(sc@, at as int) is None,
        }),
{
    let n = sc.len();
    if at < n {
        let c = sc[at];
        if c == 'a' {
            Some((Role::Assistant, at + 1))
        } else if c == 's' {
            Some((Role::System, at + 1))
        } else if c == 'u' {
            Some((Role::User, at + 1))
        } else if c == 't' {
            Some((Role::Tool, at + 1))
        } else {
            None
        }
    } else {
        None
    }
}

/// Reads a priority tag.
fn dec_priority_exec(sc: &Vec<char>, at: usize) -> (r: Option<(Priority, usize)>)
    requires
        at <= sc@.len(),
    ensures
        (match r {
            Some((v, p)) => dec_priority_at(sc@, at as int) == Some((v, p as int)) && at < p
                <= sc@.len(),
            None => dec_priority_at(sc@, at as int) is None,
        }),
{
    let n = sc.len();
    if at < n {
        let c = sc[at];
        if c == 'h' {
            Some((Priority::High, at + 1))
        } else if c == 'm' {
            Some((Priority::Medium, at + 1))
        } else if c == 'l' {
            Some((Priority::Low, at + 1))
        } else {
            None
        }
    } else {
        None
    }
}

/// Reads a status tag.
fn dec_status_exec(sc: &Vec<char>, at: usize) -> (r: Option<(Status, usize)>)
    requires
        at <= sc@.len(),
    ensures
        (match r {
            Some((v, p)) => dec_status_at(sc@, at as int) == Some((v, p as int)) && at < p
                <= sc@.len(),
            None => dec_status_at(sc@, at as int) is None,
        }),
{
    let n = sc.len();
    if at < n {
        let c = sc[at];
        if c == 'p' {
            Some((Status::Pending, at + 1))
        } else if c == 'i' {
            Some((Status::InProgress, at + 1))
        } else if c == 'c' {
            Some((Status::Completed, at + 1))
        } else {
            None
        }
    } else {
        None
    }
}

/// Reads a signed number.
fn dec_i64_exec(sc: &Vec<char>, at: usize) -> (r: Option<(i64, usize)>)
    requires
        at <= sc@.len(),
    ensures
        (match r {
            Some((v, p)) => dec_i64_at(sc@, at as int) == Some((v, p as int)) && at < p
                <= sc@.len(),
            None => dec_i64_at(sc@, at as int) is None,
        }),
{
    let n = sc.len();
    if at >= n {
        return None;
    }
    let c = sc[at];
    if c != 'P' && c != 'M' {
        return None;
    }
    if n - (at + 1) < 16 {
        proof {
            assert(dec_hex_at(sc@, at + 1int, 16) is None);
        }
        return None;
    }
    match dec_hex_exec(sc, at + 1, 16) {
        None => None,
        Some(v) => {
            if c == 'P' {
                if v <= i64::MAX as u64 {
                    Some((v as i64, at + 17))
                } else {
                    None
                }
            } else {
                if 0 < v && v <= 0x8000_0000_0000_0000u64 {
                    let neg: i64 = if v == 0x8000_0000_0000_0000u64 {
                        i64::MIN
                    } else {
                        -(v as i64)
                    };
                    proof {
                        assert(neg as int == 0 - v as int);
                    }
                    Some((neg, at + 17))
                } else {
                    None
                }
            }
        },
    }
}

/// Reads one replacement.
fn dec_editop_exec(sc: &Vec<char>, at: usize) -> (r: Option<(EditOp, usize)>)
    requires
        at <= sc@.len(),
    ensures
        (match r {
            Some((v, p)) => dec_editop_at(sc@, at as int) == Some((v@, p as int)) && at <= p
                <= sc@.len(),
            None => dec_editop_at(sc@, at as int) is None,
        }),
{
    match dec_str_exec(sc, at) {
        None => None,
        Some((o, at2)) => match dec_str_exec(sc, at2) {
            None => None,
            Some((nw, at3)) => match dec_bool_exec(sc, at3) {
                None => None,
                Some((b, at4)) => Some(
                    (EditOp { old_string: o, new_string: nw, replace_all: b }, at4),
                ),
            },
        },
    }
}

/// Reads `count` replacements.
fn dec_edits_exec(sc: &Vec<char>, at: usize, count: u64) -> (r: Option<(Vec<EditOp>, usize)>)
    requires
        at <= sc@.len(),
    ensures
        (match r {
            Some((v, p)) => dec_edits_at(sc@, at as int, count as nat) == Some(
                (v@.map_values(|e: EditOp| e@), p as int),
            ) && at <= p <= sc@.len(),
            None => dec_edits_at(sc@, at as int, count as nat) is None,
        }),
    decreases count,
{
    if count == 0 {
        let out: Vec<EditOp> = Vec::new();
        proof {
            assert(out@.map_values(|e: EditOp| e@) =~= Seq::<EditOpModel>::empty());
        }
        Some((out, at))
    } else {
        match dec_editop_exec(sc, at) {
            None => None,
            Some((x, at2)) => match dec_edits_exec(sc, at2, count - 1) {
                None => None,
                Some((mut xs, at3)) => {
                    let ghost tailm = xs@.map_values(|e: EditOp| e@);
                    let ghost xm = x@;
                    xs.insert(0, x);
                    proof {
                        assert(xs@.map_values(|e: EditOp| e@) =~~= seq![xm] + tailm);
                    }
                    Some((xs, at3))
                },
            },
        }
    }
}

/// Reads one argument value.
fn dec_argval_exec(sc: &Vec<char>, at: usize) -> (r: Option<(ArgValue, usize)>)
    requires
        at <= sc@.len(),
    ensures
        (match r {
            Some((v, p)) => dec_argval_at(sc@, at as int) == Some((v@, p as int)) && at <= p
                <= sc@.len(),
            None => dec_argval_at(sc@, at as int) is None,
        }),
{
    let n = sc.len();
    if at >= n {
        return None;
    }
    let c = sc[at];
    if c == 's' {
        match dec_str_exec(sc, at + 1) {
            Some((x, p)) => Some((ArgValue::Str(x), p)),
            None => None,
        }
    } else if c == 'i' {
        match dec_i64_exec(sc, at + 1) {
            Some((x, p)) => Some((ArgValue::Int(x), p)),
            None => None,
        }
    } else if c == 'b' {
        match dec_bool_exec(sc, at + 1) {
            Some((x, p)) => Some((ArgValue::Bool(x), p)),
            None => None,
        }
    } else if c == 'e' {
        match dec_num_exec(sc, at + 1) {
            Some((cnt, at2)) => match dec_edits_exec(sc, at2, cnt) {
                Some((es, p)) => Some((ArgValue::Edits(es), p)),
                None => None,
            },
            None => None,
        }
    } else {
        None
    }
}

/// Reads one named argument.
fn dec_pair_exec(sc: &Vec<char>, at: usize) -> (r: Option<((String, ArgValue), usize)>)
    requires
        at <= sc@.len(),
    ensures
        (match r {
            Some((v, p)) => dec_pair_at(sc@, at as int) == Some(((v.0@, v.1@), p as int)) && at
                <= p <= sc@.len(),
            None => dec_pair_at(sc@, at as int) is None,
        }),
{
    match dec_str_exec(sc, at) {
        None => None,
        Some((k, at2)) => match dec_argval_exec(sc, at2) {
            None => None,
            Some((v, p)) => Some(((k, v), p)),
        },
    }
}

/// Reads `count` named arguments.
fn dec_pairs_exec(sc: &Vec<char>, at: usize, count: u64) -> (r: Option<(
    Vec<(String, ArgValue)>,
    usize,
)>)
    requires
        at <= sc@.len(),
    ensures
        (match r {
            Some((v, p)) => dec_pairs_at(sc@, at as int, count as nat) == Some(
                (v@.map_values(|e: (String, ArgValue)| (e.0@, e.1@)), p as int),
            ) && at <= p <= sc@.len(),
            None => dec_pairs_at(sc@, at as int, count as nat) is None,
        }),
    decreases count,
{
    if count == 0 {
        let out: Vec<(String, ArgValue)> = Vec::new();
        proof {
            assert(out@.map_values(|e: (String, ArgValue)| (e.0@, e.1@)) =~= Seq::<
                (Seq<char>, ArgValueModel),
            >::empty());
        }
        Some((out, at))
    } else {
        match dec_pair_exec(sc, at) {
            None => None,
            Some((x, at2)) => match dec_pairs_exec(sc, at2, count - 1) {
                None => None,
                Some((mut xs, at3)) => {
                    let ghost tailm = xs@.map_values(|e: (String, ArgValue)| (e.0@, e.1@));
                    let ghost xm = (x.0@, x.1@);
                    xs.insert(0, x);
                    proof {
                        assert(xs@.map_values(|e: (String, ArgValue)| (e.0@, e.1@)) =~~= seq![xm]
                            + tailm);
                    }
                    Some((xs, at3))
                },
            },
        }
    }
}

/// Reads one tool call.
fn dec_call_exec(sc: &Vec<char>, at: usize) -> (r: Option<(FunctionCall, usize)>)
    requires
        at <= sc@.len(),
    ensures
        (match r {
            Some((v, p)) => dec_call_at(sc@, at as int) == Some((v@, p as int)) && at <= p
                <= sc@.len(),
            None => dec_call_at(sc@, at as int) is None,
        }),
{
    match dec_opt_str_exec(sc, at) {
        None => None,
        Some((id, at2)) => match dec_str_exec(sc, at2) {
            None => None,
            Some((name, at3)) => match dec_num_exec(sc, at3) {
                None => None,
                Some((cnt, at4)) => match dec_pairs_exec(sc, at4, cnt) {
                    None => None,
                    Some((args, p)) => {
                        let call = FunctionCall { id, name, args: ToolArgs(args) };
                        Some((call, p))
                    },
                },
            },
        },
    }
}

/// Reads `count` calls.
fn dec_calls_exec(sc: &Vec<char>, at: usize, count: u64) -> (r: Option<(
    Vec<FunctionCall>,
    usize,
)>)
    requires
        at <= sc@.len(),
    ensures
        (match r {
            Some((v, p)) => dec_calls_at(sc@, at as int, count as nat) == Some(
                (v@.map_values(|c: FunctionCall| c@), p as int),
            ) && at <= p <= sc@.len(),
            None => dec_calls_at(sc@, at as int, count as nat) is None,
        }),
    decreases count,
{
    if count == 0 {
        let out: Vec<FunctionCall> = Vec::new();
        proof {
            assert(out@.map_values(|c: FunctionCall| c@) =~= Seq::<CallModel>::empty());
        }
        Some((out, at))
    } else {
        match dec_call_exec(sc, at) {
            None => None,
            Some((x, at2)) => match dec_calls_exec(sc, at2, count - 1) {
                None => None,
                Some((mut xs, at3)) => {
                    let ghost tailm = xs@.map_values(|c: FunctionCall| c@);
                    let ghost xm = x@;
                    xs.insert(0, x);
                    proof {
                        assert(xs@.map_values(|c: FunctionCall| c@) =~~= seq![xm] + tailm);
                    }
                    Some((xs, at3))
                },
            },
        }
    }
}

/// Reads one message.
fn dec_msg_exec(sc: &Vec<char>, at: usize) -> (r: Option<(Message, usize)>)
    requires
        at <= sc@.len(),
    ensures
        (match r {
            Some((v, p)) => dec_msg_at(sc@, at as int) == Some((v@, p as int)) && at <= p
                <= sc@.len(),
            None => dec_msg_at(sc@, at as int) is None,
        }),
{
    match dec_role_exec(sc, at) {
        None => None,
        Some((role, at2)) => match dec_str_exec(sc, at2) {
            None => None,
            Some((content, at3)) => match dec_num_exec(sc, at3) {
                None => None,
                Some((cnt, at4)) => match dec_calls_exec(sc, at4, cnt) {
                    None => None,
                    Some((calls, at5)) => match dec_opt_str_exec(sc, at5) {
                        None => None,
                        Some((id, at6)) => match dec_bool_exec(sc, at6) {
                            None => None,
                            Some((err, at7)) => match dec_bool_exec(sc, at7) {
                                None => None,
                                Some((hint, p)) => {
                                    let m = Message {
                                        role,
                                        content,
                                        tool_calls: calls,
                                        tool_call_id: id,
                                        error: err,
                                        cache_hint: hint,
                                    };
                                    Some((m, p))
                                },
                            },
                        },
                    },
                },
            },
        },
    }
}

/// Reads `count` messages.
fn dec_msgs_exec(sc: &Vec<char>, at: usize, count: u64) -> (r: Option<(Vec<Message>, usize)>)
    requires
        at <= sc@.len(),
    ensures
        (match r {
            Some((v, p)) => dec_msgs_at(sc@, at as int, count as nat) == Some(
                (v@.map_values(|m: Message| m@), p as int),
            ) && at <= p <= sc@.len(),
            None => dec_msgs_at(sc@, at as int, count as nat) is None,
        }),
    decreases count,
{
    if count == 0 {
        let out: Vec<Message> = Vec::new();
        proof {
            assert(out@.map_values(|m: Message| m@) =~= Seq::<MessageModel>::empty());
        }
        Some((out, at))
    } else {
        match dec_msg_exec(sc, at) {
            None => None,
            Some((x, at2)) => match dec_msgs_exec(sc, at2, count - 1) {
                None => None,
                Some((mut xs, at3)) => {
                    let ghost tailm = xs@.map_values(|m: Message| m@);
                    let ghost xm = x@;
                    xs.insert(0, x);
                    proof {
                        assert(xs@.map_values(|m: Message| m@) =~~= seq![xm] + tailm);
                    }
                    Some((xs, at3))
                },
            },
        }
    }
}

/// Reads one ledger entry.
fn dec_todo_exec(sc: &Vec<char>, at: usize) -> (r: Option<((String, TodoItem), usize)>)
    requires
        at <= sc@.len(),
    ensures
        (match r {
            Some((v, p)) => dec_todo_at(sc@, at as int) == Some(((v.0@, v.1@), p as int)) && at
                <= p <= sc@.len(),
            None => dec_todo_at(sc@, at as int) is None,
        }),
{
    match dec_str_exec(sc, at) {
        None => None,
        Some((k, at2)) => match dec_priority_exec(sc, at2) {
            None => None,
            Some((pri, at3)) => match dec_status_exec(sc, at3) {
                None => None,
                Some((st, at4)) => match dec_str_exec(sc, at4) {
                    None => None,
                    Some((content, p)) => Some(
                        ((k, TodoItem { priority: pri, status: st, content }), p),
                    ),
                },
            },
        },
    }
}

/// Reads `count` ledger entries.
fn dec_todos_exec(sc: &Vec<char>, at: usize, count: u64) -> (r: Option<(
    Vec<(String, TodoItem)>,
    usize,
)>)
    requires
        at <= sc@.len(),
    ensures
        (match r {
            Some((v, p)) => dec_todos_at(sc@, at as int, count as nat) == Some(
                (v@.map_values(|e: (String, TodoItem)| (e.0@, e.1@)), p as int),
            ) && at <= p <= sc@.len(),
            None => dec_todos_at(sc@, at as int, count as nat) is None,
        }),
    decreases count,
{
    if count == 0 {
        let out: Vec<(String, TodoItem)> = Vec::new();
        proof {
            assert(out@.map_values(|e: (String, TodoItem)| (e.0@, e.1@)) =~= Seq::<
                (Seq<char>, TodoModel),
            >::empty());
        }
        Some((out, at))
    } else {
        match dec_todo_exec(sc, at) {
            None => None,
            Some((x, at2)) => match dec_todos_exec(sc, at2, count - 1) {
                None => None,
                Some((mut xs, at3)) => {
                    let ghost tailm = xs@.map_values(|e: (String, TodoItem)| (e.0@, e.1@));
                    let ghost xm = (x.0@, x.1@);
                    xs.insert(0, x);
                    proof {
                        assert(xs@.map_values(|e: (String, TodoItem)| (e.0@, e.1@)) =~~= seq![xm]
                            + tailm);
                    }
                    Some((xs, at3))
                },
            },
        }
    }
}

impl SessionSaveState {
    /// Reads a record back from one saved text: succeeds exactly when the
    /// text is one whole encoding, and then yields the encoded record.
    pub fn load(t: &str) -> (r: Result<SessionSaveState, AiError>)
        ensures
            (match r {
                Ok(st) => dec_session(t@) == Some(st@),
                Err(_) => dec_session(t@) is None,
            }),
    {
        let sc = crate::strutil::chars_of(t);
        let parse_failed = AiError::ParseError(String::from_str("session"));
        match dec_num_exec(&sc, 0) {
            None => Err(parse_failed),
            Some((nc, at2)) => match dec_msgs_exec(&sc, at2, nc) {
                None => Err(parse_failed),
                Some((chat, at3)) => match dec_num_exec(&sc, at3) {
                    None => Err(parse_failed),
                    Some((nt, at4)) => match dec_todos_exec(&sc, at4, nt) {
                        None => Err(parse_failed),
                        Some((todo, at5)) => match dec_str_exec(&sc, at5) {
                            None => Err(parse_failed),
                            Some((model, at6)) => match dec_num_exec(&sc, at6) {
                                None => Err(parse_failed),
                                Some((cost, at7)) => {
                                    if at7 == sc.len() {
                                        let st = SessionSaveState {
                                            chat,
                                            todo,
                                            model,
                                            token_cost: cost,
                                        };
                                        proof {
                                            assert(st@ =~~= dec_session(t@).unwrap());
                                        }
                                        Ok(st)
                                    } else {
                                        Err(parse_failed)
                                    }
                                },
                            },
                        },
                    },
                },
            },
        }
    }
}

} // verus!

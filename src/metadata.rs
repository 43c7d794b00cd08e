//! The package's metadata block: a JSON object whose values are strings.
//!
//! The recognised keys are `name` and `description`; other keys are skipped,
//! a key given twice keeps its last value, and a missing key leaves the empty
//! string. String escapes are the two-character ones of JSON (`\"`, `\\`,
//! `\/`, `\b`, `\f`, `\n`, `\r`, `\t`); any other byte stands for itself.
//! The value of any other key may also be a bare token (a number, `true`,
//! `false`, `null`) or a nested object or array; such values are skipped, with
//! only their brackets counted and their strings delimited.
//!
//! The grammar is an automaton that reads one byte at a time: `scan_step`
//! gives its transition, `scan_from` runs it over a byte sequence.
use vstd::prelude::*;

verus! {

/// Where the automaton stands in the object.
#[derive(PartialEq, Eq, Structural, Clone, Copy)]
pub enum Phase {
    /// Before the opening brace.
    Open,
    /// After the opening brace: a key or the closing brace.
    KeyOrClose,
    /// Inside a key.
    Key,
    /// Inside a key, right after a backslash.
    KeyEscape,
    /// After a key, before its colon.
    Colon,
    /// After a colon, before the value's opening quote.
    ValueStart,
    /// Inside a value.
    Value,
    /// Inside a value, right after a backslash.
    ValueEscape,
    /// Inside a bare token that is the value of an unrecognised key.
    Token,
    /// Inside a nested object or array that is the value of an
    /// unrecognised key.
    Nested,
    /// Inside a string within a nested value.
    NestedString,
    /// Inside a string within a nested value, right after a backslash.
    NestedEscape,
    /// After a value: a comma or the closing brace.
    CommaOrClose,
    /// After a comma: the next key.
    KeyStart,
    /// After the closing brace.
    Done,
    /// The bytes are not a metadata object.
    Failed,
}

/// Abstract state of the automaton.
pub struct ScanState {
    pub phase: Phase,
    /// The key read last.
    pub key: Seq<u8>,
    /// The value being read.
    pub text: Seq<u8>,
    /// The value of `name` so far.
    pub name: Seq<u8>,
    /// The value of `description` so far.
    pub description: Seq<u8>,
    /// How many brackets of a nested value are open.
    pub depth: nat,
}

/// Bytes of the key `name`.
pub open spec fn name_key() -> Seq<u8> {
    seq![110u8, 97u8, 109u8, 101u8]
}

/// Bytes of the key `description`.
pub open spec fn description_key() -> Seq<u8> {
    seq![100u8, 101u8, 115u8, 99u8, 114u8, 105u8, 112u8, 116u8, 105u8, 111u8, 110u8]
}

/// JSON whitespace: space, tab, line feed, carriage return.
pub open spec fn is_ws(b: u8) -> bool {
    b == 32 || b == 9 || b == 10 || b == 13
}

/// Bytes that may make up a bare token: letters, digits, `+`, `-`, `.`.
pub open spec fn is_token_byte(b: u8) -> bool {
    (48 <= b <= 57) || (65 <= b <= 90) || (97 <= b <= 122) || b == 43 || b == 45 || b == 46
}

/// Whether `k` is a key whose value is read.
pub open spec fn is_recognised(k: Seq<u8>) -> bool {
    k == name_key() || k == description_key()
}

/// The byte that a backslash followed by `b` stands for.
pub open spec fn unescaped(b: u8) -> Option<u8> {
    if b == 34 || b == 92 || b == 47 {
        Some(b)
    } else if b == 98 {
        Some(8u8)
    } else if b == 102 {
        Some(12u8)
    } else if b == 110 {
        Some(10u8)
    } else if b == 114 {
        Some(13u8)
    } else if b == 116 {
        Some(9u8)
    } else {
        None
    }
}

/// The state before any byte was read.
pub open spec fn scan_start() -> ScanState {
    ScanState {
        phase: Phase::Open,
        key: Seq::empty(),
        text: Seq::empty(),
        name: Seq::empty(),
        description: Seq::empty(),
        depth: 0,
    }
}

/// The state `s` with phase `p`.
pub open spec fn goto(s: ScanState, p: Phase) -> ScanState {
    ScanState { phase: p, ..s }
}

/// The state after the value in `s.text` was closed: it is stored under the
/// key `s.key` if that key is recognised.
pub open spec fn close_value(s: ScanState) -> ScanState {
    ScanState {
        phase: Phase::CommaOrClose,
        text: Seq::empty(),
        name: if s.key == name_key() { s.text } else { s.name },
        description: if s.key == description_key() { s.text } else { s.description },
        ..s
    }
}

/// The transition of the automaton on byte `b`.
pub open spec fn scan_step(s: ScanState, b: u8) -> ScanState {
    match s.phase {
        Phase::Open => if is_ws(b) { s } else if b == 123 { goto(s, Phase::KeyOrClose) } else { goto(s, Phase::Failed) },
        Phase::KeyOrClose => if is_ws(b) {
            s
        } else if b == 34 {
            ScanState { phase: Phase::Key, key: Seq::empty(), ..s }
        } else if b == 125 {
            goto(s, Phase::Done)
        } else {
            goto(s, Phase::Failed)
        },
        Phase::Key => if b == 34 {
            goto(s, Phase::Colon)
        } else if b == 92 {
            goto(s, Phase::KeyEscape)
        } else {
            ScanState { key: s.key.push(b), ..s }
        },
        Phase::KeyEscape => match unescaped(b) {
            Some(c) => ScanState { phase: Phase::Key, key: s.key.push(c), ..s },
            None => goto(s, Phase::Failed),
        },
        Phase::Colon => if is_ws(b) { s } else if b == 58 { goto(s, Phase::ValueStart) } else { goto(s, Phase::Failed) },
        Phase::ValueStart => if is_ws(b) {
            s
        } else if b == 34 {
            ScanState { phase: Phase::Value, text: Seq::empty(), ..s }
        } else if is_recognised(s.key) {
            goto(s, Phase::Failed)
        } else if b == 123 || b == 91 {
            ScanState { phase: Phase::Nested, depth: 1, ..s }
        } else if is_token_byte(b) {
            goto(s, Phase::Token)
        } else {
            goto(s, Phase::Failed)
        },
        Phase::Token => if is_token_byte(b) {
            s
        } else if is_ws(b) {
            goto(s, Phase::CommaOrClose)
        } else if b == 44 {
            goto(s, Phase::KeyStart)
        } else if b == 125 {
            goto(s, Phase::Done)
        } else {
            goto(s, Phase::Failed)
        },
        Phase::Nested => if b == 34 {
            goto(s, Phase::NestedString)
        } else if b == 123 || b == 91 {
            ScanState { depth: s.depth + 1, ..s }
        } else if b == 125 || b == 93 {
            if s.depth <= 1 {
                ScanState { phase: Phase::CommaOrClose, depth: 0, ..s }
            } else {
                ScanState { depth: (s.depth - 1) as nat, ..s }
            }
        } else {
            s
        },
        Phase::NestedString => if b == 34 {
            goto(s, Phase::Nested)
        } else if b == 92 {
            goto(s, Phase::NestedEscape)
        } else {
            s
        },
        Phase::NestedEscape => goto(s, Phase::NestedString),
        Phase::Value => if b == 34 {
            close_value(s)
        } else if b == 92 {
            goto(s, Phase::ValueEscape)
        } else {
            ScanState { text: s.text.push(b), ..s }
        },
        Phase::ValueEscape => match unescaped(b) {
            Some(c) => ScanState { phase: Phase::Value, text: s.text.push(c), ..s },
            None => goto(s, Phase::Failed),
        },
        Phase::CommaOrClose => if is_ws(b) {
            s
        } else if b == 44 {
            goto(s, Phase::KeyStart)
        } else if b == 125 {
            goto(s, Phase::Done)
        } else {
            goto(s, Phase::Failed)
        },
        Phase::KeyStart => if is_ws(b) {
            s
        } else if b == 34 {
            ScanState { phase: Phase::Key, key: Seq::empty(), ..s }
        } else {
            goto(s, Phase::Failed)
        },
        Phase::Done => if is_ws(b) { s } else { goto(s, Phase::Failed) },
        Phase::Failed => s,
    }
}

/// The automaton run from `s` over the bytes `b`.
pub open spec fn scan_from(s: ScanState, b: Seq<u8>) -> ScanState
    decreases b.len(),
{
    if b.len() == 0 {
        s
    } else {
        scan_from(scan_step(s, b[0]), b.drop_first())
    }
}

/// The raw bytes of `name` and `description` held by the metadata block `b`,
/// or `None` when `b` is not a metadata object.
pub open spec fn parse_fields(b: Seq<u8>) -> Option<(Seq<u8>, Seq<u8>)> {
    let s = scan_from(scan_start(), b);
    if s.phase == Phase::Done {
        Some((s.name, s.description))
    } else {
        None
    }
}

/// Running over `a + b` is running over `a`, then over `b`.
pub proof fn lemma_scan_concat(s: ScanState, a: Seq<u8>, b: Seq<u8>)
    ensures
        scan_from(s, a + b) == scan_from(scan_from(s, a), b),
    decreases a.len(),
{
    if a.len() == 0 {
        assert(a + b =~= b);
    } else {
        assert((a + b).drop_first() =~= a.drop_first() + b);
        lemma_scan_concat(scan_step(s, a[0]), a.drop_first(), b);
    }
}

/// The bytes that stand for `b` inside a string: quote and backslash are
/// escaped with a backslash, every other byte stands for itself.
pub open spec fn escape_byte(b: u8) -> Seq<u8> {
    if b == 34 || b == 92 {
        seq![92u8, b]
    } else {
        seq![b]
    }
}

/// The bytes that stand for `v` inside a string.
pub open spec fn escaped(v: Seq<u8>) -> Seq<u8>
    decreases v.len(),
{
    if v.len() == 0 {
        Seq::empty()
    } else {
        escape_byte(v[0]) + escaped(v.drop_first())
    }
}

/// The metadata block that holds `name` and `description`, in that order.
pub open spec fn encode_fields(name: Seq<u8>, description: Seq<u8>) -> Seq<u8> {
    seq![123u8, 34u8] + name_key() + seq![34u8, 58u8, 34u8] + escaped(name) + seq![34u8, 44u8, 34u8]
        + description_key() + seq![34u8, 58u8, 34u8] + escaped(description) + seq![34u8, 125u8]
}

proof fn lemma_scan_value(s: ScanState, v: Seq<u8>)
    requires
        s.phase == Phase::Value,
    ensures
        scan_from(s, escaped(v)) == (ScanState { text: s.text + v, ..s }),
    decreases v.len(),
{
    if v.len() == 0 {
        assert(s.text + v =~= s.text);
    } else {
        let b = v[0];
        let s1 = ScanState { text: s.text.push(b), ..s };
        lemma_scan_concat(s, escape_byte(b), escaped(v.drop_first()));
        reveal_with_fuel(scan_from, 3);
        assert(scan_from(s, escape_byte(b)) == s1);
        lemma_scan_value(s1, v.drop_first());
        assert(s1.text + v.drop_first() =~= s.text + v);
    }
}

proof fn lemma_scan_key(s: ScanState, k: Seq<u8>)
    requires
        s.phase == Phase::Key,
        forall|i: int| 0 <= i < k.len() ==> k[i] != 34u8 && k[i] != 92u8,
    ensures
        scan_from(s, k) == (ScanState { key: s.key + k, ..s }),
    decreases k.len(),
{
    if k.len() == 0 {
        assert(s.key + k =~= s.key);
    } else {
        let s1 = ScanState { key: s.key.push(k[0]), ..s };
        assert(scan_step(s, k[0]) == s1);
        let rest = k.drop_first();
        assert forall|i: int| 0 <= i < rest.len() implies rest[i] != 34u8 && rest[i] != 92u8 by {
            assert(rest[i] == k[i + 1]);
        }
        lemma_scan_key(s1, rest);
        assert(s1.key + rest =~= s.key + k);
    }
}

/// The metadata block written for `name` and `description` reads back as
/// exactly those two fields.
pub proof fn lemma_fields_round_trip(name: Seq<u8>, description: Seq<u8>)
    ensures
        parse_fields(encode_fields(name, description)) == Some((name, description)),
{
    reveal_with_fuel(scan_from, 4);
    let p1 = seq![123u8, 34u8];
    let p2 = name_key();
    let p3 = seq![34u8, 58u8, 34u8];
    let p4 = escaped(name);
    let p5 = seq![34u8, 44u8, 34u8];
    let p6 = description_key();
    let p7 = seq![34u8, 58u8, 34u8];
    let p8 = escaped(description);
    let p9 = seq![34u8, 125u8];
    let s0 = scan_start();
    let s1 = scan_from(s0, p1);
    assert(s1 == ScanState { phase: Phase::Key, ..s0 });
    lemma_scan_key(s1, p2);
    let s2 = scan_from(s1, p2);
    assert(s2.key =~= name_key());
    let s3 = scan_from(s2, p3);
    assert(s3 == ScanState { phase: Phase::Value, ..s2 });
    lemma_scan_value(s3, name);
    let s4 = scan_from(s3, p4);
    assert(s3.text + name =~= name);
    assert(s4.text == name);
    let s5 = scan_from(s4, p5);
    assert(s5 == ScanState { phase: Phase::Key, key: Seq::empty(), text: Seq::empty(), name: name, ..s0 });
    lemma_scan_key(s5, p6);
    let s6 = scan_from(s5, p6);
    assert(s6.key =~= description_key());
    let s7 = scan_from(s6, p7);
    lemma_scan_value(s7, description);
    let s8 = scan_from(s7, p8);
    assert(s7.text + description =~= description);
    assert(s8.text == description);
    let s9 = scan_from(s8, p9);
    assert(s9.phase == Phase::Done && s9.name == name && s9.description == description);
    lemma_scan_concat(s0, p1, p2);
    lemma_scan_concat(s0, p1 + p2, p3);
    lemma_scan_concat(s0, p1 + p2 + p3, p4);
    lemma_scan_concat(s0, p1 + p2 + p3 + p4, p5);
    lemma_scan_concat(s0, p1 + p2 + p3 + p4 + p5, p6);
    lemma_scan_concat(s0, p1 + p2 + p3 + p4 + p5 + p6, p7);
    lemma_scan_concat(s0, p1 + p2 + p3 + p4 + p5 + p6 + p7, p8);
    lemma_scan_concat(s0, p1 + p2 + p3 + p4 + p5 + p6 + p7 + p8, p9);
}

/// Escaping distributes over concatenation.
pub proof fn lemma_escaped_concat(a: Seq<u8>, b: Seq<u8>)
    ensures
        escaped(a + b) == escaped(a) + escaped(b),
    decreases a.len(),
{
    if a.len() == 0 {
        assert(a + b =~= b);
        assert(escaped(a) + escaped(b) =~= escaped(b));
    } else {
        assert((a + b).drop_first() =~= a.drop_first() + b);
        lemma_escaped_concat(a.drop_first(), b);
        assert(escaped(a + b) =~= escaped(a) + escaped(b));
    }
}

fn push_escaped(out: &mut Vec<u8>, v: &[u8])
    ensures
        final(out)@ == old(out)@ + escaped(v@),
{
    let mut i: usize = 0;
    while i < v.len()
        invariant
            i <= v@.len(),
            out@ == old(out)@ + escaped(v@.subrange(0, i as int)),
        decreases v@.len() - i,
    {
        let b = v[i];
        proof {
            lemma_escaped_concat(v@.subrange(0, i as int), seq![b]);
            assert(v@.subrange(0, i as int) + seq![b] =~= v@.subrange(0, i + 1));
            reveal_with_fuel(escaped, 2);
            assert(seq![b].drop_first() =~= Seq::<u8>::empty());
            assert(escaped(seq![b]) =~= escape_byte(b));
        }
        if b == 34 || b == 92 {
            out.push(92);
        }
        out.push(b);
        i = i + 1;
        assert(out@ =~= old(out)@ + escaped(v@.subrange(0, i as int)));
    }
    assert(v@.subrange(0, v@.len() as int) =~= v@);
}

/// The metadata block that holds `name` and `description`.
pub fn encode_metadata_block(name: &[u8], description: &[u8]) -> (r: Vec<u8>)
    ensures
        r@ == encode_fields(name@, description@),
{
    let mut out: Vec<u8> = Vec::new();
    out.push(123);
    out.push(34);
    out.push(110);
    out.push(97);
    out.push(109);
    out.push(101);
    out.push(34);
    out.push(58);
    out.push(34);
    push_escaped(&mut out, name);
    out.push(34);
    out.push(44);
    out.push(34);
    out.push(100);
    out.push(101);
    out.push(115);
    out.push(99);
    out.push(114);
    out.push(105);
    out.push(112);
    out.push(116);
    out.push(105);
    out.push(111);
    out.push(110);
    out.push(34);
    out.push(58);
    out.push(34);
    push_escaped(&mut out, description);
    out.push(34);
    out.push(125);
    assert(out@ =~= encode_fields(name@, description@));
    out
}

/// Exec form of the automaton's state.
pub struct Scanner {
    phase: Phase,
    key: Vec<u8>,
    text: Vec<u8>,
    name: Vec<u8>,
    description: Vec<u8>,
    depth: usize,
}

impl View for Scanner {
    type V = ScanState;

    closed spec fn view(&self) -> ScanState {
        ScanState {
            phase: self.phase,
            key: self.key@,
            text: self.text@,
            name: self.name@,
            description: self.description@,
            depth: self.depth as nat,
        }
    }
}

fn is_ws_byte(b: u8) -> (r: bool)
    ensures
        r == is_ws(b),
{
    b == 32 || b == 9 || b == 10 || b == 13
}

fn unescape_byte(b: u8) -> (r: Option<u8>)
    ensures
        r == unescaped(b),
{
    if b == 34 || b == 92 || b == 47 {
        Some(b)
    } else if b == 98 {
        Some(8u8)
    } else if b == 102 {
        Some(12u8)
    } else if b == 110 {
        Some(10u8)
    } else if b == 114 {
        Some(13u8)
    } else if b == 116 {
        Some(9u8)
    } else {
        None
    }
}

fn is_token(b: u8) -> (r: bool)
    ensures
        r == is_token_byte(b),
{
    (48 <= b && b <= 57) || (65 <= b && b <= 90) || (97 <= b && b <= 122) || b == 43 || b == 45
        || b == 46
}

fn is_name_key(k: &Vec<u8>) -> (r: bool)
    ensures
        r == (k@ == name_key()),
{
    let r = k.len() == 4 && k[0] == 110 && k[1] == 97 && k[2] == 109 && k[3] == 101;
    proof {
        if r {
            assert(k@ =~= name_key());
        }
    }
    r
}

fn is_description_key(k: &Vec<u8>) -> (r: bool)
    ensures
        r == (k@ == description_key()),
{
    let r = k.len() == 11 && k[0] == 100 && k[1] == 101 && k[2] == 115 && k[3] == 99
        && k[4] == 114 && k[5] == 105 && k[6] == 112 && k[7] == 116 && k[8] == 105
        && k[9] == 111 && k[10] == 110;
    proof {
        if r {
            assert(k@ =~= description_key());
        }
    }
    r
}

impl Scanner {
    /// The automaton before any byte was read.
    pub fn new() -> (r: Self)
        ensures
            r@ == scan_start(),
    {
        Scanner {
            phase: Phase::Open,
            key: Vec::new(),
            text: Vec::new(),
            name: Vec::new(),
            description: Vec::new(),
            depth: 0,
        }
    }

    /// Whether the bytes read so far form a complete metadata object.
    pub fn is_done(&self) -> (r: bool)
        ensures
            r == (self@.phase == Phase::Done),
    {
        self.phase == Phase::Done
    }

    /// Feed one byte to the automaton.
    pub fn step(&mut self, b: u8)
        requires
            old(self)@.depth < usize::MAX,
        ensures
            final(self)@ == scan_step(old(self)@, b),
    {
        match self.phase {
            Phase::Open => {
                if is_ws_byte(b) {
                } else if b == 123 {
                    self.phase = Phase::KeyOrClose;
                } else {
                    self.phase = Phase::Failed;
                }
            },
            Phase::KeyOrClose => {
                if is_ws_byte(b) {
                } else if b == 34 {
                    self.phase = Phase::Key;
                    self.key.clear();
                } else if b == 125 {
                    self.phase = Phase::Done;
                } else {
                    self.phase = Phase::Failed;
                }
            },
            Phase::Key => {
                if b == 34 {
                    self.phase = Phase::Colon;
                } else if b == 92 {
                    self.phase = Phase::KeyEscape;
                } else {
                    self.key.push(b);
                }
            },
            Phase::KeyEscape => {
                match unescape_byte(b) {
                    Some(c) => {
                        self.phase = Phase::Key;
                        self.key.push(c);
                    },
                    None => {
                        self.phase = Phase::Failed;
                    },
                }
            },
            Phase::Colon => {
                if is_ws_byte(b) {
                } else if b == 58 {
                    self.phase = Phase::ValueStart;
                } else {
                    self.phase = Phase::Failed;
                }
            },
            Phase::ValueStart => {
                if is_ws_byte(b) {
                } else if b == 34 {
                    self.phase = Phase::Value;
                    self.text.clear();
                } else if is_name_key(&self.key) || is_description_key(&self.key) {
                    self.phase = Phase::Failed;
                } else if b == 123 || b == 91 {
                    self.phase = Phase::Nested;
                    self.depth = 1;
                } else if is_token(b) {
                    self.phase = Phase::Token;
                } else {
                    self.phase = Phase::Failed;
                }
            },
            Phase::Token => {
                if is_token(b) {
                } else if is_ws_byte(b) {
                    self.phase = Phase::CommaOrClose;
                } else if b == 44 {
                    self.phase = Phase::KeyStart;
                } else if b == 125 {
                    self.phase = Phase::Done;
                } else {
                    self.phase = Phase::Failed;
                }
            },
            Phase::Nested => {
                if b == 34 {
                    self.phase = Phase::NestedString;
                } else if b == 123 || b == 91 {
                    self.depth = self.depth + 1;
                } else if b == 125 || b == 93 {
                    if self.depth <= 1 {
                        self.phase = Phase::CommaOrClose;
                        self.depth = 0;
                    } else {
                        self.depth = self.depth - 1;
                    }
                }
            },
            Phase::NestedString => {
                if b == 34 {
                    self.phase = Phase::Nested;
                } else if b == 92 {
                    self.phase = Phase::NestedEscape;
                }
            },
            Phase::NestedEscape => {
                self.phase = Phase::NestedString;
            },
            Phase::Value => {
                if b == 34 {
                    if is_name_key(&self.key) {
                        std::mem::swap(&mut self.name, &mut self.text);
                    } else if is_description_key(&self.key) {
                        std::mem::swap(&mut self.description, &mut self.text);
                    }
                    self.text.clear();
                    self.phase = Phase::CommaOrClose;
                } else if b == 92 {
                    self.phase = Phase::ValueEscape;
                } else {
                    self.text.push(b);
                }
            },
            Phase::ValueEscape => {
                match unescape_byte(b) {
                    Some(c) => {
                        self.phase = Phase::Value;
                        self.text.push(c);
                    },
                    None => {
                        self.phase = Phase::Failed;
                    },
                }
            },
            Phase::CommaOrClose => {
                if is_ws_byte(b) {
                } else if b == 44 {
                    self.phase = Phase::KeyStart;
                } else if b == 125 {
                    self.phase = Phase::Done;
                } else {
                    self.phase = Phase::Failed;
                }
            },
            Phase::KeyStart => {
                if is_ws_byte(b) {
                } else if b == 34 {
                    self.phase = Phase::Key;
                    self.key.clear();
                } else {
                    self.phase = Phase::Failed;
                }
            },
            Phase::Done => {
                if !is_ws_byte(b) {
                    self.phase = Phase::Failed;
                }
            },
            Phase::Failed => {},
        }
        assert(self@ =~= scan_step(old(self)@, b));
    }

    /// Feed the bytes `b[start..end]` to the automaton.
    pub fn feed(&mut self, b: &[u8], start: usize, end: usize)
        requires
            start <= end <= b@.len(),
            old(self)@.depth + (end - start) <= usize::MAX,
        ensures
            final(self)@ == scan_from(old(self)@, b@.subrange(start as int, end as int)),
    {
        let mut i: usize = start;
        while i < end
            invariant
                start <= i <= end <= b@.len(),
                self@.depth <= old(self)@.depth + (i - start),
                old(self)@.depth + (end - start) <= usize::MAX,
                scan_from(old(self)@, b@.subrange(start as int, end as int))
                    == scan_from(self@, b@.subrange(i as int, end as int)),
            decreases end - i,
        {
            let ghost before = self@;
            self.step(b[i]);
            proof {
                let rest = b@.subrange(i as int, end as int);
                assert(rest[0] == b[i as int]);
                assert(rest.drop_first() =~= b@.subrange(i + 1, end as int));
            }
            i = i + 1;
        }
    }

    /// The fields read, by value; `name` and `description` in that order.
    pub fn into_fields(self) -> (r: (Vec<u8>, Vec<u8>))
        ensures
            r.0@ == self@.name,
            r.1@ == self@.description,
    {
        (self.name, self.description)
    }
}

} // verus!

//! The text form of a record: each field, escaped, on a line of its own.
//!
//! A backslash is written as two backslashes and a line break as a
//! backslash followed by `n`, so no escaped field holds a line break.
use vstd::prelude::*;

use crate::record::{record_fields, record_from_fields, GameView, InstalledGame};

verus! {

/// Number of fields in a stored record.
pub const FIELD_COUNT: usize = 5;

pub open spec fn escape_char(c: char) -> Seq<char> {
    if c == '\\' {
        seq!['\\', '\\']
    } else if c == '\n' {
        seq!['\\', 'n']
    } else {
        seq![c]
    }
}

/// `s` with every backslash and line break escaped.
pub open spec fn escape(s: Seq<char>) -> Seq<char>
    decreases s.len(),
{
    if s.len() == 0 {
        Seq::empty()
    } else {
        escape(s.drop_last()) + escape_char(s.last())
    }
}

/// The fields `f`, each escaped and followed by a line break.
pub open spec fn encode_fields(f: Seq<Seq<char>>) -> Seq<char>
    decreases f.len(),
{
    if f.len() == 0 {
        Seq::empty()
    } else {
        encode_fields(f.drop_last()) + escape(f.last()) + seq!['\n']
    }
}

/// The stored text of a record.
pub open spec fn encode_view(g: GameView) -> Seq<char> {
    encode_fields(record_fields(g))
}

/// Where a left-to-right reading of stored text stands: the fields finished
/// so far, the field being read, whether a backslash awaits its partner, and
/// whether an invalid escape was met.
pub struct Scan {
    pub fields: Seq<Seq<char>>,
    pub current: Seq<char>,
    pub pending: bool,
    pub failed: bool,
}

pub open spec fn scan_start() -> Scan {
    Scan { fields: Seq::empty(), current: Seq::empty(), pending: false, failed: false }
}

pub open spec fn scan_step(st: Scan, c: char) -> Scan {
    if st.failed {
        st
    } else if st.pending {
        if c == '\\' {
            Scan { current: st.current.push('\\'), pending: false, ..st }
        } else if c == 'n' {
            Scan { current: st.current.push('\n'), pending: false, ..st }
        } else {
            Scan { failed: true, ..st }
        }
    } else if c == '\\' {
        Scan { pending: true, ..st }
    } else if c == '\n' {
        Scan { fields: st.fields.push(st.current), current: Seq::empty(), ..st }
    } else {
        Scan { current: st.current.push(c), ..st }
    }
}

pub open spec fn scan_from(st: Scan, s: Seq<char>) -> Scan
    decreases s.len(),
{
    if s.len() == 0 {
        st
    } else {
        scan_step(scan_from(st, s.drop_last()), s.last())
    }
}

/// The record that stored text `t` holds: present exactly when every escape
/// is valid, the text ends with a line break and it holds five fields.
pub open spec fn decode_text(t: Seq<char>) -> Option<GameView> {
    let st = scan_from(scan_start(), t);
    if !st.failed && !st.pending && st.current.len() == 0 && st.fields.len() == 5 {
        Some(record_from_fields(st.fields))
    } else {
        None
    }
}

proof fn lemma_scan_concat(st: Scan, a: Seq<char>, b: Seq<char>)
    ensures
        scan_from(st, a + b) == scan_from(scan_from(st, a), b),
    decreases b.len(),
{
    if b.len() == 0 {
        assert(a + b =~= a);
    } else {
        lemma_scan_concat(st, a, b.drop_last());
        assert((a + b).drop_last() =~= a + b.drop_last());
        assert((a + b).last() == b.last());
    }
}

proof fn lemma_scan_one(st: Scan, c: char)
    ensures
        scan_from(st, seq![c]) == scan_step(st, c),
{
    assert(seq![c].drop_last() =~= Seq::<char>::empty());
    assert(scan_from(st, Seq::<char>::empty()) == st);
}

proof fn lemma_scan_two(st: Scan, a: char, b: char)
    ensures
        scan_from(st, seq![a, b]) == scan_step(scan_step(st, a), b),
{
    assert(seq![a, b].drop_last() =~= seq![a]);
    lemma_scan_one(st, a);
}

proof fn lemma_scan_escaped(st: Scan, s: Seq<char>)
    requires
        !st.failed,
        !st.pending,
    ensures
        scan_from(st, escape(s)) == (Scan { current: st.current + s, ..st }),
    decreases s.len(),
{
    if s.len() == 0 {
        assert(st.current + s =~= st.current);
    } else {
        let p = s.drop_last();
        let c = s.last();
        lemma_scan_escaped(st, p);
        lemma_scan_concat(st, escape(p), escape_char(c));
        let mid = scan_from(st, escape(p));
        assert(escape(s) == escape(p) + escape_char(c));
        if c == '\\' {
            lemma_scan_two(mid, '\\', '\\');
        } else if c == '\n' {
            lemma_scan_two(mid, '\\', 'n');
        } else {
            lemma_scan_one(mid, c);
        }
        assert(st.current + s =~= (st.current + p).push(c));
    }
}

proof fn lemma_scan_fields(st: Scan, f: Seq<Seq<char>>)
    requires
        !st.failed,
        !st.pending,
        st.current.len() == 0,
    ensures
        scan_from(st, encode_fields(f)) == (Scan { fields: st.fields + f, ..st }),
    decreases f.len(),
{
    assert(st.current =~= Seq::<char>::empty());
    if f.len() == 0 {
        assert(st.fields + f =~= st.fields);
    } else {
        let p = f.drop_last();
        lemma_scan_fields(st, p);
        let mid = scan_from(st, encode_fields(p));
        lemma_scan_concat(st, encode_fields(p) + escape(f.last()), seq!['\n']);
        lemma_scan_concat(st, encode_fields(p), escape(f.last()));
        lemma_scan_escaped(mid, f.last());
        lemma_scan_one(scan_from(mid, escape(f.last())), '\n');
        assert(encode_fields(f) == encode_fields(p) + escape(f.last()) + seq!['\n']);
        assert(mid.current + f.last() =~= f.last());
        assert(st.fields + f =~= (st.fields + p).push(f.last()));
    }
}

/// Decoding the stored text of any record gives that record back.
pub proof fn lemma_decode_encode(g: GameView)
    ensures
        decode_text(encode_view(g)) == Some(g),
{
    lemma_scan_fields(scan_start(), record_fields(g));
    assert(scan_start().fields + record_fields(g) =~= record_fields(g));
    assert(record_from_fields(record_fields(g)) == g);
}

/// Appends `s`, escaped, to `out`.
fn push_escaped(out: &mut String, s: &str)
    ensures
        final(out)@ == old(out)@ + escape(s@),
{
    let n = s.unicode_len();
    let mut i: usize = 0;
    while i < n
        invariant
            n == s@.len(),
            i <= n,
            out@ == old(out)@ + escape(s@.take(i as int)),
        decreases n - i,
    {
        let c = s.get_char(i);
        proof {
            assert(s@.take(i + 1).drop_last() =~= s@.take(i as int));
            reveal_strlit("\\\\");
            reveal_strlit("\\n");
        }
        if c == '\\' {
            out.append("\\\\");
            assert("\\\\"@ =~= seq!['\\', '\\']);
        } else if c == '\n' {
            out.append("\\n");
            assert("\\n"@ =~= seq!['\\', 'n']);
        } else {
            let one = s.substring_char(i, i + 1);
            out.append(one);
            assert(one@ =~= seq![c]);
        }
        i += 1;
    }
    assert(s@.take(n as int) =~= s@);
}

/// Appends `s`, escaped, and a line break to `out`.
fn push_field(out: &mut String, s: &str)
    ensures
        final(out)@ == old(out)@ + escape(s@) + seq!['\n'],
{
    push_escaped(out, s);
    out.append("\n");
    proof {
        reveal_strlit("\n");
    }
    assert("\n"@ =~= seq!['\n']);
}

/// The stored text of `g`.
pub fn encode_record(g: &InstalledGame) -> (r: String)
    ensures
        r@ == encode_view(g@),
{
    let mut out = String::new();
    push_field(&mut out, g.app_name.as_str());
    push_field(&mut out, g.app_title.as_str());
    push_field(&mut out, g.app_version.as_str());
    push_field(&mut out, g.install_path.as_str());
    push_field(&mut out, g.executable.as_str());
    proof {
        let f = record_fields(g@);
        reveal_with_fuel(encode_fields, 6);
        assert(f.drop_last() =~= seq![f[0], f[1], f[2], f[3]]);
        assert(f.drop_last().drop_last() =~= seq![f[0], f[1], f[2]]);
        assert(f.drop_last().drop_last().drop_last() =~= seq![f[0], f[1]]);
        assert(f.drop_last().drop_last().drop_last().drop_last() =~= seq![f[0]]);
        assert(f.drop_last().drop_last().drop_last().drop_last().drop_last() =~= Seq::<
            Seq<char>,
        >::empty());
        assert(out@ =~= encode_fields(f));
    }
    out
}

/// The record that stored text `text` holds, if it holds one.
pub fn decode_record(text: &str) -> (r: Option<InstalledGame>)
    ensures
        r is Some <==> decode_text(text@) is Some,
        r is Some ==> decode_text(text@) == Some(r->0@),
{
    let n = text.unicode_len();
    let mut fields: Vec<String> = Vec::new();
    let mut current = String::new();
    let mut pending = false;
    let mut failed = false;
    let mut i: usize = 0;
    assert(text@.take(0) =~= Seq::<char>::empty());
    assert(fields@.map_values(|f: String| f@) =~= Seq::<Seq<char>>::empty());
    assert(current@ =~= Seq::<char>::empty());
    while i < n
        invariant
            n == text@.len(),
            i <= n,
            scan_from(scan_start(), text@.take(i as int)) == (Scan {
                fields: fields@.map_values(|f: String| f@),
                current: current@,
                pending,
                failed,
            }),
        decreases n - i,
    {
        let c = text.get_char(i);
        let ghost before = Scan {
            fields: fields@.map_values(|f: String| f@),
            current: current@,
            pending,
            failed,
        };
        proof {
            assert(text@.take(i + 1).drop_last() =~= text@.take(i as int));
            assert(text@.take(i + 1).last() == c);
            reveal_strlit("\\");
            reveal_strlit("\n");
        }
        if failed {
        } else if pending {
            if c == '\\' {
                current.append("\\");
                assert(current@ =~= before.current.push('\\'));
                pending = false;
            } else if c == 'n' {
                current.append("\n");
                assert(current@ =~= before.current.push('\n'));
                pending = false;
            } else {
                failed = true;
            }
        } else if c == '\\' {
            pending = true;
        } else if c == '\n' {
            let done = current;
            current = String::new();
            fields.push(done);
            assert(fields@.map_values(|f: String| f@) =~= before.fields.push(done@));
            assert(current@ =~= Seq::<char>::empty());
        } else {
            let one = text.substring_char(i, i + 1);
            current.append(one);
            assert(current@ =~= before.current.push(c));
        }
        i += 1;
    }
    assert(text@.take(n as int) =~= text@);
    if !failed && !pending && current.as_str().unicode_len() == 0 && fields.len() == FIELD_COUNT {
        let g = InstalledGame {
            app_name: fields[0].clone(),
            app_title: fields[1].clone(),
            app_version: fields[2].clone(),
            install_path: fields[3].clone(),
            executable: fields[4].clone(),
        };
        assert(g@ == record_from_fields(fields@.map_values(|f: String| f@)));
        Some(g)
    } else {
        None
    }
}

} // verus!

//! Byte-exact JSON emission.
//!
//! Every payload this crate sends is produced here. The spec functions define
//! the rendered byte sequence of each JSON fragment; the executable writers
//! are proved to produce exactly those bytes. Objects are written through
//! [`ObjWriter`], which enforces the two-phase protocol of the output format:
//! the number of fields is declared before any field is written, and the
//! object can only be closed once exactly that many fields were written.

use vstd::prelude::*;

verus! {

/// Decimal digits of `n`, most significant first, as ASCII bytes.
pub open spec fn dec_bytes(n: nat) -> Seq<u8>
    decreases n,
{
    if n < 10 {
        seq![(48 + n) as u8]
    } else {
        dec_bytes(n / 10).push((48 + n % 10) as u8)
    }
}

/// Rendering of a (possibly negative) integer: a minus sign, then the digits.
pub open spec fn sdec_bytes(n: int) -> Seq<u8> {
    if n < 0 {
        seq![45u8] + dec_bytes((-n) as nat)
    } else {
        dec_bytes(n as nat)
    }
}

/// Appends the decimal rendering of `n` to `out`.
pub fn push_dec_u64(out: &mut Vec<u8>, n: u64)
    ensures
        final(out)@ == old(out)@ + dec_bytes(n as nat),
    decreases n,
{
    if n < 10 {
        out.push(48 + n as u8);
        assert(out@ =~= old(out)@ + dec_bytes(n as nat));
    } else {
        push_dec_u64(out, n / 10);
        out.push(48 + (n % 10) as u8);
        assert(out@ =~= old(out)@ + dec_bytes(n as nat));
    }
}

/// Appends the decimal rendering of `n`, with a minus sign if negative.
pub fn push_dec_i64(out: &mut Vec<u8>, n: i64)
    ensures
        final(out)@ == old(out)@ + sdec_bytes(n as int),
{
    if n < 0 {
        out.push(45);
        let m: u64 = if n == i64::MIN {
            9223372036854775808u64
        } else {
            (-n) as u64
        };
        assert(m as nat == (-(n as int)) as nat);
        push_dec_u64(out, m);
        assert(out@ =~= old(out)@ + sdec_bytes(n as int));
    } else {
        push_dec_u64(out, n as u64);
    }
}

/// The ASCII hex digit (lowercase) of a value below 16.
pub open spec fn hex_digit(d: nat) -> u8 {
    if d < 10 {
        (48 + d) as u8
    } else {
        (87 + d) as u8
    }
}

/// JSON escaping of one byte of UTF-8 text: quote and backslash get a
/// backslash, control bytes become a `\u00..` sequence, everything else
/// stands as it is. Bytes above 0x7f only occur inside multi-byte UTF-8
/// sequences and are never escaped.
pub open spec fn esc_byte(b: u8) -> Seq<u8> {
    if b == 34 {
        seq![92u8, 34u8]
    } else if b == 92 {
        seq![92u8, 92u8]
    } else if b < 32 {
        seq![92u8, 117u8, 48u8, 48u8, hex_digit((b / 16) as nat), hex_digit((b % 16) as nat)]
    } else {
        seq![b]
    }
}

/// JSON escaping of a whole byte string.
pub open spec fn esc_bytes(s: Seq<u8>) -> Seq<u8>
    decreases s.len(),
{
    if s.len() == 0 {
        Seq::empty()
    } else {
        esc_byte(s[0]) + esc_bytes(s.drop_first())
    }
}

proof fn lemma_esc_bytes_push(s: Seq<u8>, b: u8)
    ensures
        esc_bytes(s.push(b)) == esc_bytes(s) + esc_byte(b),
    decreases s.len(),
{
    let t = s.push(b);
    assert(t.len() == s.len() + 1);
    if s.len() == 0 {
        assert(t[0] == b);
        assert(t.drop_first() =~= Seq::<u8>::empty());
        assert(esc_bytes(t) == esc_byte(b) + esc_bytes(Seq::<u8>::empty()));
        assert(esc_bytes(t) =~= esc_bytes(s) + esc_byte(b));
    } else {
        assert(t[0] == s[0]);
        assert(t.drop_first() =~= s.drop_first().push(b));
        lemma_esc_bytes_push(s.drop_first(), b);
        assert(esc_bytes(t) == esc_byte(s[0]) + esc_bytes(s.drop_first().push(b)));
        assert(esc_bytes(t) =~= esc_bytes(s) + esc_byte(b));
    }
}

/// Appends the JSON escaping of `s` to `out`.
pub fn push_escaped(out: &mut Vec<u8>, s: &[u8])
    ensures
        final(out)@ == old(out)@ + esc_bytes(s@),
{
    let mut i: usize = 0;
    while i < s.len()
        invariant
            i <= s@.len(),
            out@ == old(out)@ + esc_bytes(s@.take(i as int)),
        decreases s@.len() - i,
    {
        let b = s[i];
        if b == 34 {
            out.push(92);
            out.push(34);
        } else if b == 92 {
            out.push(92);
            out.push(92);
        } else if b < 32 {
            out.push(92);
            out.push(117);
            out.push(48);
            out.push(48);
            let hi = b / 16;
            let lo = b % 16;
            out.push(if hi < 10 { 48 + hi } else { 87 + hi });
            out.push(if lo < 10 { 48 + lo } else { 87 + lo });
        } else {
            out.push(b);
        }
        proof {
            lemma_esc_bytes_push(s@.take(i as int), s@[i as int]);
            assert(s@.take(i + 1) =~= s@.take(i as int).push(s@[i as int]));
            assert(out@ =~= old(out)@ + esc_bytes(s@.take(i + 1)));
        }
        i = i + 1;
    }
    proof {
        assert(s@.take(i as int) =~= s@);
    }
}

/// The rendering of a JSON string: quoted, escaped UTF-8 of the characters.
pub open spec fn jstr_bytes(s: Seq<char>) -> Seq<u8> {
    seq![34u8] + esc_bytes(vstd::utf8::encode_utf8(s)) + seq![34u8]
}

/// Appends the rendering of `s` as a JSON string to `out`.
pub fn push_json_str(out: &mut Vec<u8>, s: &str)
    ensures
        final(out)@ == old(out)@ + jstr_bytes(s@),
{
    out.push(34);
    push_escaped(out, s.as_bytes());
    out.push(34);
    assert(out@ =~= old(out)@ + jstr_bytes(s@));
}

/// Comma-joined concatenation of already-rendered values.
pub open spec fn items_bytes(items: Seq<Seq<u8>>) -> Seq<u8>
    decreases items.len(),
{
    if items.len() == 0 {
        Seq::empty()
    } else if items.len() == 1 {
        items[0]
    } else {
        items_bytes(items.drop_last()) + seq![44u8] + items.last()
    }
}

/// The rendering of a JSON array of already-rendered values.
pub open spec fn arr_bytes(items: Seq<Seq<u8>>) -> Seq<u8> {
    seq![91u8] + items_bytes(items) + seq![93u8]
}

proof fn lemma_items_bytes_push(items: Seq<Seq<u8>>, v: Seq<u8>)
    ensures
        items.len() == 0 ==> items_bytes(items.push(v)) == v,
        items.len() > 0 ==> items_bytes(items.push(v)) == items_bytes(items) + seq![44u8] + v,
{
    assert(items.push(v).drop_last() =~= items);
    if items.len() == 0 {
        assert(items_bytes(items.push(v)) =~= v);
    }
}

/// The rendering of a JSON array of strings.
pub open spec fn str_arr_bytes(ss: Seq<Seq<char>>) -> Seq<u8> {
    arr_bytes(ss.map_values(|s: Seq<char>| jstr_bytes(s)))
}

/// Appends the rendering of `vals` as a JSON array of strings to `out`.
pub fn push_str_array(out: &mut Vec<u8>, vals: &Vec<String>)
    ensures
        final(out)@ == old(out)@ + str_arr_bytes(vals.deep_view()),
{
    let ghost mapped = vals.deep_view().map_values(|s: Seq<char>| jstr_bytes(s));
    out.push(91);
    let mut i: usize = 0;
    while i < vals.len()
        invariant
            i <= vals@.len(),
            mapped == vals.deep_view().map_values(|s: Seq<char>| jstr_bytes(s)),
            out@ == old(out)@ + seq![91u8] + items_bytes(mapped.take(i as int)),
        decreases vals@.len() - i,
    {
        if i > 0 {
            out.push(44);
        }
        push_json_str(out, vals[i].as_str());
        proof {
            lemma_items_bytes_push(mapped.take(i as int), mapped[i as int]);
            assert(mapped.take(i + 1) =~= mapped.take(i as int).push(mapped[i as int]));
            assert(out@ =~= old(out)@ + seq![91u8] + items_bytes(mapped.take(i + 1)));
        }
        i = i + 1;
    }
    out.push(93);
    proof {
        assert(mapped.take(i as int) =~= mapped);
        assert(out@ =~= old(out)@ + str_arr_bytes(vals.deep_view()));
    }
}

/// Appends the rendering of `vals` as a JSON array of numbers to `out`.
pub fn push_u64_array(out: &mut Vec<u8>, vals: &Vec<u64>)
    ensures
        final(out)@ == old(out)@ + arr_bytes(vals@.map_values(|v: u64| dec_bytes(v as nat))),
{
    let ghost mapped = vals@.map_values(|v: u64| dec_bytes(v as nat));
    out.push(91);
    let mut i: usize = 0;
    while i < vals.len()
        invariant
            i <= vals@.len(),
            mapped == vals@.map_values(|v: u64| dec_bytes(v as nat)),
            out@ == old(out)@ + seq![91u8] + items_bytes(mapped.take(i as int)),
        decreases vals@.len() - i,
    {
        if i > 0 {
            out.push(44);
        }
        push_dec_u64(out, vals[i]);
        proof {
            lemma_items_bytes_push(mapped.take(i as int), mapped[i as int]);
            assert(mapped.take(i + 1) =~= mapped.take(i as int).push(mapped[i as int]));
            assert(out@ =~= old(out)@ + seq![91u8] + items_bytes(mapped.take(i + 1)));
        }
        i = i + 1;
    }
    out.push(93);
    proof {
        assert(mapped.take(i as int) =~= mapped);
        assert(out@ =~= old(out)@ + arr_bytes(mapped));
    }
}

/// The rendering of one object field: quoted name, colon, rendered value.
pub open spec fn field_bytes(f: (Seq<char>, Seq<u8>)) -> Seq<u8> {
    jstr_bytes(f.0) + seq![58u8] + f.1
}

/// Comma-joined rendering of an object's fields.
pub open spec fn fields_bytes(fs: Seq<(Seq<char>, Seq<u8>)>) -> Seq<u8>
    decreases fs.len(),
{
    if fs.len() == 0 {
        Seq::empty()
    } else if fs.len() == 1 {
        field_bytes(fs[0])
    } else {
        fields_bytes(fs.drop_last()) + seq![44u8] + field_bytes(fs.last())
    }
}

/// The rendering of a JSON object with the given fields, in order.
pub open spec fn obj_bytes(fs: Seq<(Seq<char>, Seq<u8>)>) -> Seq<u8> {
    seq![123u8] + fields_bytes(fs) + seq![125u8]
}

proof fn lemma_fields_bytes_push(fs: Seq<(Seq<char>, Seq<u8>)>, f: (Seq<char>, Seq<u8>))
    ensures
        fs.len() == 0 ==> fields_bytes(fs.push(f)) == field_bytes(f),
        fs.len() > 0 ==> fields_bytes(fs.push(f)) == fields_bytes(fs) + seq![44u8] + field_bytes(f),
{
    assert(fs.push(f).drop_last() =~= fs);
    if fs.len() == 0 {
        assert(fields_bytes(fs.push(f)) =~= field_bytes(f));
    }
}

/// An in-progress JSON object following the two-phase output protocol:
/// the total number of fields is declared up front, each field is written
/// against that budget, and the object closes only when exactly the declared
/// number of fields stands written.
pub struct ObjWriter {
    buf: Vec<u8>,
    declared: usize,
    written: usize,
    emitted: Ghost<Seq<(Seq<char>, Seq<u8>)>>,
}

impl ObjWriter {
    /// The fields written so far: name characters and rendered value bytes.
    pub closed spec fn fields(&self) -> Seq<(Seq<char>, Seq<u8>)> {
        self.emitted@
    }

    /// The field count declared when the object was opened.
    pub closed spec fn spec_declared(&self) -> usize {
        self.declared
    }

    /// The number of fields written so far.
    pub open spec fn spec_written(&self) -> nat {
        self.fields().len()
    }

    /// The writer's internal consistency: the buffer holds exactly the
    /// opening brace and the fields written so far, which do not exceed the
    /// declared count.
    pub closed spec fn wf(&self) -> bool {
        &&& self.buf@ == seq![123u8] + fields_bytes(self.emitted@)
        &&& self.written as nat == self.emitted@.len()
        &&& self.written <= self.declared
    }

    /// Opens an object that declares exactly `declared` fields.
    pub fn open(declared: usize) -> (w: ObjWriter)
        ensures
            w.wf(),
            w.fields() == Seq::<(Seq<char>, Seq<u8>)>::empty(),
            w.spec_declared() == declared,
    {
        let mut buf = Vec::new();
        buf.push(123);
        let w = ObjWriter { buf, declared, written: 0, emitted: Ghost(Seq::empty()) };
        proof {
            assert(w.buf@ =~= seq![123u8] + fields_bytes(w.emitted@));
        }
        w
    }

    /// Writes one field whose value is already rendered.
    pub fn field_raw(&mut self, name: &str, val: &Vec<u8>)
        requires
            old(self).wf(),
            old(self).spec_written() < old(self).spec_declared(),
        ensures
            final(self).wf(),
            final(self).fields() == old(self).fields().push((name@, val@)),
            final(self).spec_declared() == old(self).spec_declared(),
    {
        if self.written > 0 {
            self.buf.push(44);
        }
        push_json_str(&mut self.buf, name);
        self.buf.push(58);
        let mut i: usize = 0;
        while i < val.len()
            invariant
                i <= val@.len(),
                old(self).wf(),
                old(self).spec_written() < old(self).spec_declared(),
                self.written == old(self).written,
                self.declared == old(self).declared,
                self.emitted@ == old(self).emitted@,
                self.buf@ == old(self).buf@ + (if old(self).spec_written() == 0 {
                    Seq::<u8>::empty()
                } else {
                    seq![44u8]
                }) + jstr_bytes(name@) + seq![58u8] + val@.take(i as int),
            decreases val@.len() - i,
        {
            self.buf.push(val[i]);
            proof {
                assert(val@.take(i + 1) =~= val@.take(i as int).push(val@[i as int]));
            }
            i = i + 1;
        }
        self.written = self.written + 1;
        proof {
            self.emitted@ = self.emitted@.push((name@, val@));
            lemma_fields_bytes_push(old(self).emitted@, (name@, val@));
            assert(val@.take(val@.len() as int) =~= val@);
            assert(self.buf@ =~= seq![123u8] + fields_bytes(self.emitted@));
        }
    }

    /// Writes one string-valued field.
    pub fn field_str(&mut self, name: &str, val: &str)
        requires
            old(self).wf(),
            old(self).spec_written() < old(self).spec_declared(),
        ensures
            final(self).wf(),
            final(self).fields() == old(self).fields().push((name@, jstr_bytes(val@))),
            final(self).spec_declared() == old(self).spec_declared(),
    {
        let mut rendered: Vec<u8> = Vec::new();
        push_json_str(&mut rendered, val);
        self.field_raw(name, &rendered);
    }

    /// Writes one number-valued field.
    pub fn field_u64(&mut self, name: &str, val: u64)
        requires
            old(self).wf(),
            old(self).spec_written() < old(self).spec_declared(),
        ensures
            final(self).wf(),
            final(self).fields() == old(self).fields().push((name@, dec_bytes(val as nat))),
            final(self).spec_declared() == old(self).spec_declared(),
    {
        let mut rendered: Vec<u8> = Vec::new();
        push_dec_u64(&mut rendered, val);
        self.field_raw(name, &rendered);
    }

    /// Writes one number-valued field whose value may be negative.
    pub fn field_i64(&mut self, name: &str, val: i64)
        requires
            old(self).wf(),
            old(self).spec_written() < old(self).spec_declared(),
        ensures
            final(self).wf(),
            final(self).fields() == old(self).fields().push((name@, sdec_bytes(val as int))),
            final(self).spec_declared() == old(self).spec_declared(),
    {
        let mut rendered: Vec<u8> = Vec::new();
        push_dec_i64(&mut rendered, val);
        self.field_raw(name, &rendered);
    }

    /// Writes one null-valued field.
    pub fn field_null(&mut self, name: &str)
        requires
            old(self).wf(),
            old(self).spec_written() < old(self).spec_declared(),
        ensures
            final(self).wf(),
            final(self).fields() == old(self).fields().push((name@, null_bytes())),
            final(self).spec_declared() == old(self).spec_declared(),
    {
        let mut rendered: Vec<u8> = Vec::new();
        rendered.push(110);
        rendered.push(117);
        rendered.push(108);
        rendered.push(108);
        proof {
            assert(rendered@ =~= null_bytes());
        }
        self.field_raw(name, &rendered);
    }

    /// Writes one field whose value is an array of strings.
    pub fn field_str_array(&mut self, name: &str, vals: &Vec<String>)
        requires
            old(self).wf(),
            old(self).spec_written() < old(self).spec_declared(),
        ensures
            final(self).wf(),
            final(self).fields() == old(self).fields().push(
                (name@, str_arr_bytes(vals.deep_view())),
            ),
            final(self).spec_declared() == old(self).spec_declared(),
    {
        let mut rendered: Vec<u8> = Vec::new();
        push_str_array(&mut rendered, vals);
        self.field_raw(name, &rendered);
    }

    /// Writes one field whose value is an array of numbers.
    pub fn field_u64_array(&mut self, name: &str, vals: &Vec<u64>)
        requires
            old(self).wf(),
            old(self).spec_written() < old(self).spec_declared(),
        ensures
            final(self).wf(),
            final(self).fields() == old(self).fields().push(
                (name@, arr_bytes(vals@.map_values(|v: u64| dec_bytes(v as nat)))),
            ),
            final(self).spec_declared() == old(self).spec_declared(),
    {
        let mut rendered: Vec<u8> = Vec::new();
        push_u64_array(&mut rendered, vals);
        self.field_raw(name, &rendered);
    }

    /// Closes the object. Only an object whose declared field count was met
    /// exactly can be closed: this is the output format's precondition that
    /// the declared count equals the number of fields actually written.
    pub fn close(self) -> (r: Vec<u8>)
        requires
            self.wf(),
            self.spec_written() == self.spec_declared(),
        ensures
            r@ == obj_bytes(self.fields()),
    {
        let ObjWriter { mut buf, declared: _, written: _, emitted } = self;
        buf.push(125);
        proof {
            assert(buf@ =~= obj_bytes(emitted@));
        }
        buf
    }
}

/// The rendering of the JSON value `null`.
pub open spec fn null_bytes() -> Seq<u8> {
    seq![110u8, 117u8, 108u8, 108u8]
}

} // verus!

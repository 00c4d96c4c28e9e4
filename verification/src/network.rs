//! Network message building: a growable byte buffer with big-endian
//! integer and length-prefixed string encoding, and the URL splitting that
//! an HTTP request is assembled from.

use vstd::prelude::*;

verus! {

use vstd::string::StringSliceAdditionalSpecFns;

/// The big-endian bytes of a 16-bit value.
pub open spec fn spec_be_u16(v: u16) -> Seq<u8> {
    seq![(v >> 8) as u8, v as u8]
}

/// The big-endian bytes of a 32-bit value.
pub open spec fn spec_be_u32(v: u32) -> Seq<u8> {
    seq![(v >> 24) as u8, (v >> 16) as u8, (v >> 8) as u8, v as u8]
}

/// The big-endian bytes of a 64-bit value.
pub open spec fn spec_be_u64(v: u64) -> Seq<u8> {
    seq![
        (v >> 56) as u8,
        (v >> 48) as u8,
        (v >> 40) as u8,
        (v >> 32) as u8,
        (v >> 24) as u8,
        (v >> 16) as u8,
        (v >> 8) as u8,
        v as u8,
    ]
}

/// A growable byte buffer for assembling network messages.
pub struct NetworkBuffer {
    data: Vec<u8>,
}

impl NetworkBuffer {
    /// The bytes written so far.
    pub closed spec fn spec_data(&self) -> Seq<u8> {
        self.data@
    }

    /// An empty buffer.
    pub fn new() -> (r: NetworkBuffer)
        ensures
            r.spec_data() == Seq::<u8>::empty(),
    {
        let r = NetworkBuffer { data: Vec::new() };
        proof {
            assert(r.spec_data() =~= Seq::<u8>::empty());
        }
        r
    }

    /// An empty buffer with room reserved for `capacity` bytes.
    pub fn with_capacity(capacity: usize) -> (r: NetworkBuffer)
        ensures
            r.spec_data() == Seq::<u8>::empty(),
    {
        let r = NetworkBuffer { data: Vec::with_capacity(capacity) };
        proof {
            assert(r.spec_data() =~= Seq::<u8>::empty());
        }
        r
    }

    /// Appends one byte.
    pub fn write_u8(&mut self, value: u8)
        ensures
            final(self).spec_data() == old(self).spec_data().push(value),
    {
        self.data.push(value);
    }

    /// Appends a 16-bit value in big-endian order.
    pub fn write_u16(&mut self, value: u16)
        ensures
            final(self).spec_data() == old(self).spec_data() + spec_be_u16(value),
    {
        self.data.push((value >> 8) as u8);
        self.data.push(#[verifier::truncate] (value as u8));
        proof {
            assert(self.spec_data() =~= old(self).spec_data() + spec_be_u16(value));
        }
    }

    /// Appends a 32-bit value in big-endian order.
    pub fn write_u32(&mut self, value: u32)
        ensures
            final(self).spec_data() == old(self).spec_data() + spec_be_u32(value),
    {
        self.data.push((value >> 24) as u8);
        self.data.push(#[verifier::truncate] ((value >> 16) as u8));
        self.data.push(#[verifier::truncate] ((value >> 8) as u8));
        self.data.push(#[verifier::truncate] (value as u8));
        proof {
            assert(self.spec_data() =~= old(self).spec_data() + spec_be_u32(value));
        }
    }

    /// Appends a 64-bit value in big-endian order.
    pub fn write_u64(&mut self, value: u64)
        ensures
            final(self).spec_data() == old(self).spec_data() + spec_be_u64(value),
    {
        self.data.push((value >> 56) as u8);
        self.data.push(#[verifier::truncate] ((value >> 48) as u8));
        self.data.push(#[verifier::truncate] ((value >> 40) as u8));
        self.data.push(#[verifier::truncate] ((value >> 32) as u8));
        self.data.push(#[verifier::truncate] ((value >> 24) as u8));
        self.data.push(#[verifier::truncate] ((value >> 16) as u8));
        self.data.push(#[verifier::truncate] ((value >> 8) as u8));
        self.data.push(#[verifier::truncate] (value as u8));
        proof {
            assert(self.spec_data() =~= old(self).spec_data() + spec_be_u64(value));
        }
    }

    /// Appends raw bytes.
    pub fn write_bytes(&mut self, bytes: &[u8])
        ensures
            final(self).spec_data() == old(self).spec_data() + bytes@,
    {
        let n = bytes.len();
        let mut i: usize = 0;
        proof {
            assert(self.spec_data() =~= old(self).spec_data() + bytes@.take(0));
        }
        while i < n
            invariant
                n == bytes@.len(),
                i <= n,
                self.data@ == old(self).spec_data() + bytes@.take(i as int),
            decreases n - i,
        {
            self.data.push(bytes[i]);
            proof {
                assert(self.data@ =~= old(self).spec_data() + bytes@.take(i as int + 1));
            }
            i = i + 1;
        }
        proof {
            assert(bytes@.take(n as int) =~= bytes@);
        }
    }

    /// Appends a string as its byte length in 32-bit big-endian order
    /// followed by its UTF-8 bytes. The string may hold at most `u32::MAX`
    /// bytes.
    pub fn write_string(&mut self, s: &str)
        requires
            s.spec_bytes().len() <= u32::MAX,
        ensures
            final(self).spec_data() == old(self).spec_data() + spec_be_u32(
                s.spec_bytes().len() as u32,
            ) + s.spec_bytes(),
    {
        let bytes = s.as_bytes();
        self.write_u32(bytes.len() as u32);
        self.write_bytes(bytes);
    }

    /// The bytes written so far.
    pub fn as_bytes(&self) -> (r: &[u8])
        ensures
            r@ == self.spec_data(),
    {
        self.data.as_slice()
    }

    /// Drops everything written so far.
    pub fn clear(&mut self)
        ensures
            final(self).spec_data() == Seq::<u8>::empty(),
    {
        self.data.clear();
        proof {
            assert(self.spec_data() =~= Seq::<u8>::empty());
        }
    }

    /// How many bytes have been written.
    pub fn len(&self) -> (r: usize)
        ensures
            r == self.spec_data().len(),
    {
        self.data.len()
    }

    /// Whether nothing has been written.
    pub fn is_empty(&self) -> (r: bool)
        ensures
            r == (self.spec_data().len() == 0),
    {
        self.data.len() == 0
    }
}

/// Whether `p` is a prefix of `s`.
pub open spec fn starts_with(s: Seq<char>, p: Seq<char>) -> bool {
    p.len() <= s.len() && s.take(p.len() as int) == p
}

/// `s` with every leading repetition of `p` removed.
pub open spec fn strip_all(s: Seq<char>, p: Seq<char>) -> Seq<char>
    decreases s.len(),
{
    if p.len() > 0 && starts_with(s, p) {
        strip_all(s.skip(p.len() as int), p)
    } else {
        s
    }
}

/// The characters before the first occurrence of `c`; the whole text when
/// `c` does not occur.
pub open spec fn chars_before(s: Seq<char>, c: char) -> Seq<char>
    decreases s.len(),
{
    if s.len() == 0 {
        s
    } else if s[0] == c {
        Seq::empty()
    } else {
        seq![s[0]] + chars_before(s.skip(1), c)
    }
}

/// The characters after the first occurrence of `c`, or `None` when `c`
/// does not occur.
pub open spec fn chars_after(s: Seq<char>, c: char) -> Option<Seq<char>>
    decreases s.len(),
{
    if s.len() == 0 {
        None
    } else if s[0] == c {
        Some(s.skip(1))
    } else {
        chars_after(s.skip(1), c)
    }
}

/// Every character is a decimal digit.
pub open spec fn all_digits(s: Seq<char>) -> bool {
    forall|j: int| 0 <= j < s.len() ==> 48 <= ((#[trigger] s[j]) as u32) <= 57
}

/// The number the decimal digits spell.
pub open spec fn digits_value(s: Seq<char>) -> int
    decreases s.len(),
{
    if s.len() == 0 {
        0
    } else {
        digits_value(s.drop_last()) * 10 + ((s.last() as u32) - 48)
    }
}

/// A port number parsed from text: an optional `+`, then decimal digits
/// spelling a value of at most 65535; anything else fails.
pub open spec fn spec_parse_u16(s: Seq<char>) -> Option<u16> {
    let t = if s.len() > 0 && s[0] == '+' {
        s.skip(1)
    } else {
        s
    };
    if t.len() > 0 && all_digits(t) && digits_value(t) <= 65535 {
        Some(digits_value(t) as u16)
    } else {
        None
    }
}

/// A URL with its leading `http://` and `https://` schemes removed.
pub open spec fn spec_url_rest(u: Seq<char>) -> Seq<char> {
    strip_all(strip_all(u, "http://"@), "https://"@)
}

/// The host-and-port part of a URL: what stands before the first `/` once
/// the scheme is removed.
pub open spec fn spec_url_host_port(u: Seq<char>) -> Seq<char> {
    chars_before(spec_url_rest(u), '/')
}

/// The path part of a URL: `/` followed by whatever stands after the
/// first `/` once the scheme is removed, or just `/`.
pub open spec fn spec_url_path(u: Seq<char>) -> Seq<char> {
    match chars_after(spec_url_rest(u), '/') {
        None => "/"@,
        Some(rest) => seq!['/'] + rest,
    }
}

/// The host part of a URL: the host-and-port text before its first `:`.
pub open spec fn spec_url_host(u: Seq<char>) -> Seq<char> {
    chars_before(spec_url_host_port(u), ':')
}

/// The port of a URL: the text between the first and second `:` of the
/// host-and-port part, parsed as a port number, with 80 when there is no
/// `:` or the text does not parse.
pub open spec fn spec_url_port(u: Seq<char>) -> u16 {
    match chars_after(spec_url_host_port(u), ':') {
        None => 80,
        Some(rest) => match spec_parse_u16(chars_before(rest, ':')) {
            Some(p) => p,
            None => 80,
        },
    }
}

/// When `c` first occurs at relative position `k`, the before/after split
/// cuts exactly there.
proof fn lemma_split_at(s: Seq<char>, c: char, k: int)
    requires
        0 <= k < s.len(),
        s[k] == c,
        forall|j: int| 0 <= j < k ==> s[j] != c,
    ensures
        chars_before(s, c) == s.take(k),
        chars_after(s, c) == Some(s.skip(k + 1)),
    decreases k,
{
    if k == 0 {
        assert(chars_before(s, c) =~= s.take(0));
    } else {
        assert(s[0] != c);
        let t = s.skip(1);
        assert(t[k - 1] == c);
        assert(forall|j: int| 0 <= j < k - 1 ==> t[j] != c);
        lemma_split_at(t, c, k - 1);
        assert(chars_before(s, c) =~= s.take(k)) by {
            assert(t.take(k - 1) =~= s.take(k).skip(1));
            assert((seq![s[0]] + t.take(k - 1)) =~= s.take(k));
        }
        assert(t.skip(k) =~= s.skip(k + 1));
    }
}

/// When `c` does not occur, nothing is cut.
proof fn lemma_split_absent(s: Seq<char>, c: char)
    requires
        forall|j: int| 0 <= j < s.len() ==> s[j] != c,
    ensures
        chars_before(s, c) == s,
        chars_after(s, c) == None::<Seq<char>>,
    decreases s.len(),
{
    if s.len() > 0 {
        let t = s.skip(1);
        assert(forall|j: int| 0 <= j < t.len() ==> t[j] != c);
        lemma_split_absent(t, c);
        assert((seq![s[0]] + t) =~= s);
    }
}

/// Digits spell a nonnegative number, and a digit prefix never spells
/// more than the whole.
proof fn lemma_digits_prefix(s: Seq<char>, k: int)
    requires
        all_digits(s),
        0 <= k <= s.len(),
    ensures
        0 <= digits_value(s.take(k)) <= digits_value(s),
    decreases s.len(),
{
    if s.len() == 0 {
        assert(s.take(k) =~= s);
    } else if k == s.len() {
        assert(s.take(k) =~= s);
        assert(all_digits(s.drop_last())) by {
            assert(forall|j: int| 0 <= j < s.drop_last().len() ==> s.drop_last()[j] == s[j]);
        }
        lemma_digits_prefix(s.drop_last(), s.len() - 1);
        assert(s.drop_last().take(s.len() - 1) =~= s.drop_last());
        assert(digits_value(s.drop_last()) * 10 >= digits_value(s.drop_last()))
            by (nonlinear_arith)
            requires
                digits_value(s.drop_last()) >= 0,
        ;
    } else {
        assert(all_digits(s.drop_last())) by {
            assert(forall|j: int| 0 <= j < s.drop_last().len() ==> s.drop_last()[j] == s[j]);
        }
        assert(s.take(k) =~= s.drop_last().take(k));
        lemma_digits_prefix(s.drop_last(), k);
        assert(digits_value(s.drop_last()) * 10 >= digits_value(s.drop_last()))
            by (nonlinear_arith)
            requires
                digits_value(s.drop_last()) >= 0,
        ;
    }
}

/// The first occurrence of `c` in `s` within `[from, to)`, if any.
fn find_char_in(s: &str, from: usize, to: usize, c: char) -> (r: Option<usize>)
    requires
        from <= to <= s@.len(),
    ensures
        match r {
            Some(i) => from <= i < to && s@[i as int] == c && (forall|j: int|
                (from as int) <= j < i ==> s@[j] != c),
            None => forall|j: int| (from as int) <= j < (to as int) ==> s@[j] != c,
        },
{
    let mut i: usize = from;
    while i < to
        invariant
            from <= i <= to <= s@.len(),
            forall|j: int| (from as int) <= j < (i as int) ==> s@[j] != c,
        decreases to - i,
    {
        if s.get_char(i) == c {
            return Some(i);
        }
        i = i + 1;
    }
    None
}

/// Whether `p` stands at position `pos` of `s`.
fn has_prefix_at(s: &str, pos: usize, p: &str) -> (r: bool)
    requires
        pos <= s@.len(),
    ensures
        r == starts_with(s@.skip(pos as int), p@),
{
    let n = s.unicode_len();
    let m = p.unicode_len();
    if n - pos < m {
        assert(!starts_with(s@.skip(pos as int), p@));
        return false;
    }
    let mut j: usize = 0;
    while j < m
        invariant
            pos + m <= n,
            n == s@.len(),
            m == p@.len(),
            j <= m,
            forall|k: int| 0 <= k < (j as int) ==> s@[pos + k] == p@[k],
        decreases m - j,
    {
        if s.get_char(pos + j) != p.get_char(j) {
            assert(s@.skip(pos as int).take(m as int)[j as int] != p@[j as int]);
            return false;
        }
        j = j + 1;
    }
    proof {
        assert(s@.skip(pos as int).take(m as int) =~= p@);
    }
    true
}

/// The port number the text spells, or 80 when it spells none.
fn parse_u16_or_80(s: &str) -> (r: u16)
    ensures
        r == match spec_parse_u16(s@) {
            Some(p) => p,
            None => 80u16,
        },
{
    let n = s.unicode_len();
    let mut start: usize = 0;
    if n > 0 && s.get_char(0) == '+' {
        start = 1;
    }
    let ghost t = if s@.len() > 0 && s@[0] == '+' {
        s@.skip(1)
    } else {
        s@
    };
    proof {
        assert(t =~= s@.subrange(start as int, n as int));
    }
    if start >= n {
        return 80;
    }
    let mut acc: u32 = 0;
    let mut j: usize = start;
    while j < n
        invariant
            start <= j <= n,
            n == s@.len(),
            t == s@.subrange(start as int, n as int),
            t == (if s@.len() > 0 && s@[0] == '+' {
                s@.skip(1)
            } else {
                s@
            }),
            acc <= 65535,
            all_digits(s@.subrange(start as int, j as int)),
            acc == digits_value(s@.subrange(start as int, j as int)),
        decreases n - j,
    {
        let code = s.get_char(j) as u32;
        if code < 48 || code > 57 {
            proof {
                assert(t[j - start] == s@[j as int]);
                assert(!all_digits(t));
            }
            return 80;
        }
        let d = code - 48;
        let next = acc * 10 + d;
        proof {
            assert(s@.subrange(start as int, j as int + 1).drop_last() =~= s@.subrange(
                start as int,
                j as int,
            ));
            assert(s@.subrange(start as int, j as int + 1).last() == s@[j as int]);
        }
        if next > 65535 {
            proof {
                if all_digits(t) {
                    lemma_digits_prefix(t, j as int + 1 - start);
                    assert(t.take(j as int + 1 - start) =~= s@.subrange(
                        start as int,
                        j as int + 1,
                    ));
                }
            }
            return 80;
        }
        acc = next;
        j = j + 1;
    }
    proof {
        assert(s@.subrange(start as int, n as int) =~= t);
    }
    acc as u16
}

/// A minimal HTTP client's value-level logic; the request itself is sent
/// by whatever transport the caller wires in.
pub struct HttpClient;

impl HttpClient {
    /// Splits a URL into host, port and path: leading `http://` and
    /// `https://` schemes are removed, the first `/` separates the
    /// host-and-port part from the path, and a `:` within the former
    /// separates the host from the port, which falls back to 80 when
    /// absent or unreadable.
    #[verifier::rlimit(100)]
    pub fn parse_url(url: &str) -> (r: (String, u16, String))
        ensures
            r.0@ == spec_url_host(url@),
            r.1 == spec_url_port(url@),
            r.2@ == spec_url_path(url@),
    {
        let n = url.unicode_len();
        // Remove every leading repetition of each scheme in turn.
        let mut pos: usize = 0;
        proof {
            assert(url@.skip(0) =~= url@);
        }
        while has_prefix_at(url, pos, "http://")
            invariant
                pos <= n,
                n == url@.len(),
                strip_all(url@.skip(pos as int), "http://"@) == strip_all(url@, "http://"@),
            decreases n - pos,
        {
            proof {
                reveal_strlit("http://");
                assert(url@.skip(pos as int).skip(7) =~= url@.skip(pos as int + 7));
            }
            pos = pos + 7;
        }
        let ghost after_http = url@.skip(pos as int);
        proof {
            assert(after_http == strip_all(url@, "http://"@));
        }
        let mut pos2: usize = pos;
        while has_prefix_at(url, pos2, "https://")
            invariant
                pos <= pos2 <= n,
                n == url@.len(),
                after_http == url@.skip(pos as int),
                strip_all(url@.skip(pos2 as int), "https://"@) == strip_all(
                    after_http,
                    "https://"@,
                ),
            decreases n - pos2,
        {
            proof {
                reveal_strlit("https://");
                assert(url@.skip(pos2 as int).skip(8) =~= url@.skip(pos2 as int + 8));
            }
            pos2 = pos2 + 8;
        }
        let ghost rest = url@.skip(pos2 as int);
        proof {
            assert(rest == spec_url_rest(url@));
        }
        // Split the remainder at its first '/' into host-and-port and path.
        let (hp_end, path) = match find_char_in(url, pos2, n, '/') {
            Some(i) => {
                proof {
                    assert(rest[i - pos2] == url@[i as int]);
                    assert(forall|j: int|
                        0 <= j < i - pos2 ==> rest[j] == url@[pos2 + j]);
                    lemma_split_at(rest, '/', i as int - pos2);
                }
                let tail = url.substring_char(i + 1, n);
                let mut path = String::new();
                proof {
                    reveal_strlit("/");
                }
                path.append("/");
                path.append(tail);
                proof {
                    assert(tail@ =~= rest.skip(i as int - pos2 + 1));
                    assert(path@ =~= seq!['/'] + rest.skip(i as int - pos2 + 1));
                }
                (i, path)
            },
            None => {
                proof {
                    assert(forall|j: int| 0 <= j < rest.len() ==> rest[j] == url@[pos2 + j]);
                    lemma_split_absent(rest, '/');
                }
                let mut path = String::new();
                proof {
                    reveal_strlit("/");
                }
                path.append("/");
                proof {
                    assert(path@ =~= "/"@);
                }
                (n, path)
            },
        };
        let ghost hp = spec_url_host_port(url@);
        proof {
            assert(hp =~= url@.subrange(pos2 as int, hp_end as int));
        }
        // Split host-and-port at its first ':' into host and port text.
        match find_char_in(url, pos2, hp_end, ':') {
            Some(ci) => {
                proof {
                    assert(forall|j: int|
                        0 <= j < hp.len() ==> hp[j] == url@[pos2 + j]);
                    lemma_split_at(hp, ':', ci as int - pos2);
                }
                let host = url.substring_char(pos2, ci).to_owned();
                proof {
                    assert(host@ =~= hp.take(ci as int - pos2));
                }
                let ghost hp_rest = hp.skip(ci as int - pos2 + 1);
                // The port text runs to the next ':' or the end of the
                // host-and-port part.
                let port_end = match find_char_in(url, ci + 1, hp_end, ':') {
                    Some(c2) => {
                        proof {
                            assert(forall|j: int|
                                0 <= j < hp_rest.len() ==> hp_rest[j] == url@[ci + 1 + j]);
                            lemma_split_at(hp_rest, ':', c2 as int - ci - 1);
                        }
                        c2
                    },
                    None => {
                        proof {
                            assert(forall|j: int|
                                0 <= j < hp_rest.len() ==> hp_rest[j] == url@[ci + 1 + j]);
                            lemma_split_absent(hp_rest, ':');
                        }
                        hp_end
                    },
                };
                let port_text = url.substring_char(ci + 1, port_end);
                proof {
                    assert(port_text@ =~= chars_before(hp_rest, ':'));
                }
                let port = parse_u16_or_80(port_text);
                (host, port, path)
            },
            None => {
                proof {
                    assert(forall|j: int|
                        0 <= j < hp.len() ==> hp[j] == url@[pos2 + j]);
                    lemma_split_absent(hp, ':');
                }
                let host = url.substring_char(pos2, hp_end).to_owned();
                proof {
                    assert(host@ =~= hp);
                }
                (host, 80, path)
            },
        }
    }
}


} // verus!

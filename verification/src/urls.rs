use vstd::prelude::*;

use crate::error::Error;

verus! {

/// The normalized text of `s` parsed as an absolute base URL, or `None`
/// when `s` does not parse or cannot serve as a base.
pub uninterp spec fn base_url_of(s: Seq<char>) -> Option<Seq<char>>;

/// Relies on url::Url::parse, url::Url::cannot_be_a_base and
/// url::Url::to_string: parsing and serializing read the input characters
/// alone, and a URL accepted here can take extra path segments.
#[verifier::external_body]
fn parse_base_url(s: &str) -> (r: Result<String, Error>)
    ensures
        r matches Ok(b) ==> base_url_of(s@) == Some(b@),
        r is Err ==> base_url_of(s@) is None,
        r matches Err(e) ==> e is UrlParse,
{
    match url::Url::parse(s) {
        Ok(u) => {
            if u.cannot_be_a_base() {
                Err(Error::UrlParse("relative URL without a base".to_owned()))
            } else {
                Ok(u.to_string())
            }
        },
        Err(e) => Err(Error::UrlParse(e.to_string())),
    }
}

/// The uppercase hexadecimal digit for `n`.
pub open spec fn hex_char(n: int) -> char {
    if n == 0 {
        '0'
    } else if n == 1 {
        '1'
    } else if n == 2 {
        '2'
    } else if n == 3 {
        '3'
    } else if n == 4 {
        '4'
    } else if n == 5 {
        '5'
    } else if n == 6 {
        '6'
    } else if n == 7 {
        '7'
    } else if n == 8 {
        '8'
    } else if n == 9 {
        '9'
    } else if n == 10 {
        'A'
    } else if n == 11 {
        'B'
    } else if n == 12 {
        'C'
    } else if n == 13 {
        'D'
    } else if n == 14 {
        'E'
    } else {
        'F'
    }
}

/// The characters that a path segment may not carry verbatim: the ASCII
/// controls and the separator set `space " < > ` # ? { } / % \`.
pub open spec fn segment_char_escaped(c: char) -> bool {
    ||| (c as u32) <= 0x1F
    ||| (c as u32) == 0x7F
    ||| c == ' '
    ||| c == '"'
    ||| c == '<'
    ||| c == '>'
    ||| c == '`'
    ||| c == '#'
    ||| c == '?'
    ||| c == '{'
    ||| c == '}'
    ||| c == '/'
    ||| c == '%'
    ||| c == '\\'
}

/// How one character of a path segment is written: escaped characters
/// become a percent triple, all others stand as themselves.
pub open spec fn encode_char(c: char) -> Seq<char> {
    if segment_char_escaped(c) {
        seq!['%', hex_char((c as u32) as int / 16), hex_char((c as u32) as int % 16)]
    } else {
        seq![c]
    }
}

/// The percent-encoded form of a whole path segment.
pub open spec fn encode_segment_spec(s: Seq<char>) -> Seq<char>
    decreases s.len(),
{
    if s.len() == 0 {
        Seq::empty()
    } else {
        encode_char(s[0]) + encode_segment_spec(s.skip(1))
    }
}

/// The index where the query or fragment of a URL text begins: the first
/// `?` or `#`, or the text's length when neither occurs. In a normalized
/// URL any later `?` or `#` is percent-encoded, so this is where the path
/// ends.
pub open spec fn marker_index(s: Seq<char>) -> int
    decreases s.len(),
{
    if s.len() == 0 {
        0
    } else if s[0] == '?' || s[0] == '#' {
        0
    } else {
        1 + marker_index(s.skip(1))
    }
}

/// Appending a segment to a URL text: the percent-encoded segment is
/// spliced into the path — ahead of any query or fragment — with a slash
/// added unless one already ends the path.
pub open spec fn push_spec(u: Seq<char>, seg: Seq<char>) -> Seq<char> {
    let cut = marker_index(u);
    let head = u.subrange(0, cut);
    let tail = u.subrange(cut, u.len() as int);
    if head.len() > 0 && head[head.len() - 1] == '/' {
        head + encode_segment_spec(seg) + tail
    } else {
        head + seq!['/'] + encode_segment_spec(seg) + tail
    }
}

proof fn lemma_marker_index_at(s: Seq<char>, i: int)
    requires
        0 <= i <= s.len(),
        forall|j: int| 0 <= j < i ==> s[j] != '?' && s[j] != '#',
        i < s.len() ==> (s[i] == '?' || s[i] == '#'),
    ensures
        marker_index(s) == i,
    decreases s.len(),
{
    if s.len() == 0 {
    } else if i == 0 {
    } else {
        assert(forall|j: int| 0 <= j < i - 1 ==> s.skip(1)[j] == s[j + 1]);
        assert(i - 1 < s.skip(1).len() ==> s.skip(1)[i - 1] == s[i]);
        lemma_marker_index_at(s.skip(1), i - 1);
    }
}

/// The index where the query or fragment begins.
fn find_marker(s: &str) -> (r: usize)
    ensures
        r == marker_index(s@),
        r <= s@.len(),
{
    let len = s.unicode_len();
    let mut i: usize = 0;
    while i < len
        invariant
            0 <= i <= len,
            len == s@.len(),
            forall|j: int| 0 <= j < i ==> s@[j] != '?' && s@[j] != '#',
        decreases len - i,
    {
        let c = s.get_char(i);
        if c == '?' || c == '#' {
            proof {
                lemma_marker_index_at(s@, i as int);
            }
            return i;
        }
        i += 1;
    }
    proof {
        lemma_marker_index_at(s@, len as int);
    }
    len
}

proof fn lemma_encode_snoc(p: Seq<char>, c: char)
    ensures
        encode_segment_spec(p.push(c)) == encode_segment_spec(p) + encode_char(c),
    decreases p.len(),
{
    if p.len() == 0 {
        assert(p.push(c).skip(1) =~= Seq::<char>::empty());
        assert(p.push(c)[0] == c);
        assert(encode_segment_spec(Seq::<char>::empty()) =~= Seq::<char>::empty());
        assert(encode_segment_spec(p.push(c)) =~= encode_char(c) + Seq::<char>::empty());
        assert(encode_segment_spec(p) =~= Seq::<char>::empty());
        assert(encode_segment_spec(p.push(c)) =~= encode_segment_spec(p) + encode_char(c));
    } else {
        assert(p.push(c).skip(1) =~= p.skip(1).push(c));
        lemma_encode_snoc(p.skip(1), c);
        assert(p.push(c)[0] == p[0]);
        assert(encode_segment_spec(p.push(c)) == encode_char(p[0]) + (encode_segment_spec(p.skip(1))
            + encode_char(c)));
        assert(encode_segment_spec(p) == encode_char(p[0]) + encode_segment_spec(p.skip(1)));
        assert(encode_segment_spec(p.push(c)) =~= encode_segment_spec(p) + encode_char(c));
    }
}

fn hex_char_of(n: u32) -> (r: char)
    requires
        n < 16,
    ensures
        r == hex_char(n as int),
{
    if n == 0 {
        '0'
    } else if n == 1 {
        '1'
    } else if n == 2 {
        '2'
    } else if n == 3 {
        '3'
    } else if n == 4 {
        '4'
    } else if n == 5 {
        '5'
    } else if n == 6 {
        '6'
    } else if n == 7 {
        '7'
    } else if n == 8 {
        '8'
    } else if n == 9 {
        '9'
    } else if n == 10 {
        'A'
    } else if n == 11 {
        'B'
    } else if n == 12 {
        'C'
    } else if n == 13 {
        'D'
    } else if n == 14 {
        'E'
    } else {
        'F'
    }
}

fn char_escaped(c: char) -> (r: bool)
    ensures
        r == segment_char_escaped(c),
{
    let n = c as u32;
    n <= 0x1F || n == 0x7F || c == ' ' || c == '"' || c == '<' || c == '>' || c == '`' || c == '#'
        || c == '?' || c == '{' || c == '}' || c == '/' || c == '%' || c == '\\'
}

/// Relies on String::push: it appends exactly the given character.
#[verifier::external_body]
fn push_char(s: &mut String, c: char)
    ensures
        final(s)@ == old(s)@.push(c),
{
    s.push(c);
}

/// Writes a path segment in its percent-encoded form.
pub fn encode_segment(seg: &str) -> (r: String)
    ensures
        r@ == encode_segment_spec(seg@),
{
    let len = seg.unicode_len();
    let mut out = String::new();
    let mut i: usize = 0;
    proof {
        assert(seg@.subrange(0, 0) =~= Seq::<char>::empty());
    }
    while i < len
        invariant
            0 <= i <= len,
            len == seg@.len(),
            out@ == encode_segment_spec(seg@.subrange(0, i as int)),
        decreases len - i,
    {
        let c = seg.get_char(i);
        let ghost prefix = seg@.subrange(0, i as int);
        proof {
            assert(seg@.subrange(0, i as int + 1) =~= prefix.push(c));
            lemma_encode_snoc(prefix, c);
        }
        if char_escaped(c) {
            let n = c as u32;
            assert(n < 128) by {
                assert(segment_char_escaped(c));
            };
            push_char(&mut out, '%');
            push_char(&mut out, hex_char_of(n / 16));
            push_char(&mut out, hex_char_of(n % 16));
            proof {
                assert(out@ =~= encode_segment_spec(prefix) + encode_char(c));
            }
        } else {
            push_char(&mut out, c);
            proof {
                assert(out@ =~= encode_segment_spec(prefix) + encode_char(c));
            }
        }
        i += 1;
    }
    proof {
        assert(seg@.subrange(0, len as int) =~= seg@);
    }
    out
}

/// A URL under construction: a validated base plus appended path segments.
pub struct UrlBuilder {
    buf: String,
}

impl View for UrlBuilder {
    type V = Seq<char>;

    closed spec fn view(&self) -> Seq<char> {
        self.buf@
    }
}

impl UrlBuilder {
    /// Parses and normalizes the base URL; a URL that cannot serve as a
    /// base is rejected.
    pub fn new(url: &str) -> (r: Result<Self, Error>)
        ensures
            r matches Ok(b) ==> base_url_of(url@) == Some(b@),
            r is Err <==> base_url_of(url@) is None,
            r matches Err(e) ==> e is UrlParse,
    {
        let buf = parse_base_url(url)?;
        Ok(UrlBuilder { buf })
    }

    /// Appends one path segment, percent-encoded, splicing it into the
    /// path ahead of any query or fragment the URL carries.
    pub fn push(self, path: &str) -> (r: Self)
        ensures
            r@ == push_spec(self@, path@),
    {
        let len = self.buf.as_str().unicode_len();
        let cut = find_marker(self.buf.as_str());
        let head = self.buf.as_str().substring_char(0, cut);
        let tail = self.buf.as_str().substring_char(cut, len);
        let needs_slash = if cut == 0 {
            true
        } else {
            head.get_char(cut - 1) != '/'
        };
        let mut buf = head.to_owned();
        if needs_slash {
            push_char(&mut buf, '/');
        }
        let encoded = encode_segment(path);
        buf.append(encoded.as_str());
        buf.append(tail);
        proof {
            assert(head@ =~= self@.subrange(0, cut as int));
            assert(tail@ =~= self@.subrange(cut as int, self@.len() as int));
            assert(buf@ =~= push_spec(self@, path@));
        }
        UrlBuilder { buf }
    }

    /// Hands the finished URL text out.
    pub fn take(self) -> (r: String)
        ensures
            r@ == self@,
    {
        self.buf
    }

    /// A second builder over the same text.
    pub fn duplicate(&self) -> (r: Self)
        ensures
            r@ == self@,
    {
        UrlBuilder { buf: self.buf.clone() }
    }
}

} // verus!

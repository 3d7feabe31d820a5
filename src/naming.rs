use sha2::Digest;
use vstd::prelude::*;

verus! {

/// The SHA-256 digest of a byte string.
pub uninterp spec fn sha256_of(data: Seq<u8>) -> Seq<u8>;

/// Relies on sha2::Sha256::digest: the 32-byte SHA-256 digest of the input.
#[verifier::external_body]
fn sha256(data: &[u8]) -> (r: Vec<u8>)
    ensures
        r@ == sha256_of(data@),
        r.len() == 32,
{
    sha2::Sha256::digest(data).to_vec()
}

/// Lower-case hexadecimal digit of a value below 16.
pub open spec fn hex_char(n: int) -> char {
    seq!['0', '1', '2', '3', '4', '5', '6', '7', '8', '9', 'a', 'b', 'c', 'd', 'e', 'f'][n]
}

/// Two lower-case hexadecimal digits per byte, high digit first.
pub open spec fn hex_of(b: Seq<u8>) -> Seq<char>
    decreases b.len(),
{
    if b.len() == 0 {
        Seq::empty()
    } else {
        hex_of(b.drop_last()) + seq![hex_char(b.last() as int / 16), hex_char(b.last() as int % 16)]
    }
}

/// The file name of an image whose raw bytes are `data`: its digest in hex, then `.png`.
pub open spec fn file_name_of(data: Seq<u8>) -> Seq<char> {
    hex_of(sha256_of(data)) + seq!['.', 'p', 'n', 'g']
}

fn hex_digit(n: u8) -> (r: &'static str)
    requires
        n < 16,
    ensures
        r@ == seq![hex_char(n as int)],
{
    let digits = "0123456789abcdef";
    proof {
        reveal_strlit("0123456789abcdef");
        assert(digits@ =~= seq!['0', '1', '2', '3', '4', '5', '6', '7', '8', '9', 'a', 'b', 'c', 'd', 'e', 'f']);
    }
    let r = digits.substring_ascii(n as usize, n as usize + 1);
    assert(r@ =~= seq![hex_char(n as int)]);
    r
}

/// The content-addressed file name of an image: equal bytes always give equal names.
pub fn file_name(data: &[u8]) -> (r: String)
    ensures
        r@ == file_name_of(data@),
{
    let digest = sha256(data);
    let mut name = String::new();
    let mut i: usize = 0;
    while i < digest.len()
        invariant
            i <= digest.len(),
            name@ == hex_of(digest@.subrange(0, i as int)),
        decreases digest.len() - i,
    {
        let b = digest[i];
        name.append(hex_digit(b / 16));
        name.append(hex_digit(b % 16));
        proof {
            let s = digest@.subrange(0, i + 1);
            assert(s.drop_last() =~= digest@.subrange(0, i as int));
        }
        i = i + 1;
    }
    assert(digest@.subrange(0, digest.len() as int) =~= digest@);
    let ext = ".png";
    proof {
        reveal_strlit(".png");
    }
    name.append(ext);
    assert(name@ =~= file_name_of(data@));
    name
}

proof fn lemma_hex_len(b: Seq<u8>)
    ensures
        hex_of(b).len() == 2 * b.len(),
    decreases b.len(),
{
    if b.len() > 0 {
        lemma_hex_len(b.drop_last());
    }
}

proof fn lemma_hex_char_injective(m: int, n: int)
    requires
        0 <= m < 16,
        0 <= n < 16,
        hex_char(m) == hex_char(n),
    ensures
        m == n,
{
}

/// Hex encoding loses nothing: byte strings with equal encodings are equal.
pub proof fn lemma_hex_injective(a: Seq<u8>, b: Seq<u8>)
    requires
        hex_of(a) == hex_of(b),
    ensures
        a == b,
    decreases a.len(),
{
    lemma_hex_len(a);
    lemma_hex_len(b);
    if a.len() > 0 {
        let ha = hex_of(a.drop_last());
        let hb = hex_of(b.drop_last());
        lemma_hex_len(a.drop_last());
        lemma_hex_len(b.drop_last());
        let n = hex_of(a).len() as int;
        assert(hex_of(a)[n - 2] == hex_char(a.last() as int / 16));
        assert(hex_of(b)[n - 2] == hex_char(b.last() as int / 16));
        assert(hex_of(a)[n - 1] == hex_char(a.last() as int % 16));
        assert(hex_of(b)[n - 1] == hex_char(b.last() as int % 16));
        lemma_hex_char_injective(a.last() as int / 16, b.last() as int / 16);
        lemma_hex_char_injective(a.last() as int % 16, b.last() as int % 16);
        assert(a.last() == b.last());
        assert(ha =~= hex_of(a).subrange(0, n - 2));
        assert(hb =~= hex_of(b).subrange(0, n - 2));
        lemma_hex_injective(a.drop_last(), b.drop_last());
        assert(a =~= a.drop_last().push(a.last()));
        assert(b =~= b.drop_last().push(b.last()));
    } else {
        assert(b.len() == 0);
        assert(a =~= b);
    }
}

/// Content-addressed naming: the name is a function of the image bytes alone, so the same
/// bytes get the same name; and two images get different names whenever their digests
/// differ.
pub proof fn lemma_file_name_by_content(a: Seq<u8>, b: Seq<u8>)
    ensures
        a == b ==> file_name_of(a) == file_name_of(b),
        sha256_of(a) != sha256_of(b) ==> file_name_of(a) != file_name_of(b),
{
    if file_name_of(a) == file_name_of(b) {
        lemma_hex_len(sha256_of(a));
        lemma_hex_len(sha256_of(b));
        let ha = hex_of(sha256_of(a));
        let hb = hex_of(sha256_of(b));
        assert(file_name_of(a).len() == ha.len() + 4);
        assert(file_name_of(b).len() == hb.len() + 4);
        assert(ha =~= file_name_of(a).subrange(0, ha.len() as int));
        assert(hb =~= file_name_of(b).subrange(0, hb.len() as int));
        assert(ha.len() == hb.len());
        lemma_hex_injective(sha256_of(a), sha256_of(b));
    }
}

} // verus!

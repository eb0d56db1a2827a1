//! Base64 text encoding and the loading page shown while the service starts.

use vstd::prelude::*;
use vstd::string::*;

verus! {

/// The sixty-four symbols of the standard base64 alphabet, by value.
pub const BASE64_ALPHABET: &'static str = "ABCDEFGHIJKLMNOPQRSTUVWXYZabcdefghijklmnopqrstuvwxyz0123456789+/";

/// The byte of `s` at `i`, or zero past its end.
pub open spec fn byte_or_zero(s: Seq<u8>, i: int) -> int {
    if 0 <= i < s.len() {
        s[i] as int
    } else {
        0
    }
}

/// Scheme and media type of the loading page's address; the base64 text of
/// the page follows.
pub const DATA_URI_PREFIX: &'static str = "data:text/html;base64,";

/// The page shown while the service starts: a title and a spinner.
pub const LOADING_PAGE_HTML: &'static str = r#"<!DOCTYPE html>
<html>
<head>
<meta charset="utf-8">
<style>
  body {
    margin:0; min-height:100vh; display:flex; align-items:center; justify-content:center;
    background:linear-gradient(135deg,#667eea 0%,#764ba2 100%);
    font-family:-apple-system,BlinkMacSystemFont,'Segoe UI',Roboto,sans-serif;
  }
  .loader {
    text-align:center; color:white;
  }
  .loader h1 { font-size:1.75rem; margin-bottom:1rem; }
  .spinner {
    width:40px; height:40px; margin:0 auto 1rem;
    border:4px solid rgba(255,255,255,0.3); border-top-color:white;
    border-radius:50%; animation:spin 1s linear infinite;
  }
  @keyframes spin { to { transform:rotate(360deg); } }
  .loader p { opacity:0.8; font-size:0.9rem; }
</style>
</head>
<body>
  <div class="loader">
    <h1>DoctorFill</h1>
    <div class="spinner"></div>
    <p>Démarrage du serveur...</p>
  </div>
</body>
</html>"#;

/// The value (below 64) of the sextet in `slot` (0 to 3) of group `g` of `s`.
pub open spec fn sextet(s: Seq<u8>, g: int, slot: int) -> int {
    let b0 = byte_or_zero(s, 3 * g);
    let b1 = byte_or_zero(s, 3 * g + 1);
    let b2 = byte_or_zero(s, 3 * g + 2);
    if slot == 0 {
        b0 / 4
    } else if slot == 1 {
        (b0 % 4) * 16 + b1 / 16
    } else if slot == 2 {
        (b1 % 16) * 4 + b2 / 64
    } else {
        b2 % 64
    }
}

/// Character `slot` of the four that group `g` of `s` encodes to: a symbol of
/// the alphabet, or `=` where the group runs past the end of `s`.
pub open spec fn group_char(s: Seq<u8>, g: int, slot: int) -> char {
    if slot == 2 && 3 * g + 1 >= s.len() {
        '='
    } else if slot == 3 && 3 * g + 2 >= s.len() {
        '='
    } else {
        BASE64_ALPHABET@[sextet(s, g, slot)]
    }
}

/// Number of groups of three bytes (the last one maybe short) in `n` bytes.
pub open spec fn group_count(n: nat) -> nat {
    (n + 2) / 3
}

/// The characters that the first `g` groups of `s` encode to.
pub open spec fn encoded_groups(s: Seq<u8>, g: nat) -> Seq<char> {
    Seq::new(4 * g, |j: int| group_char(s, j / 4, j % 4))
}

/// Standard padded base64 of the bytes `s`: four characters per group of
/// three bytes.
pub open spec fn base64_of(s: Seq<u8>) -> Seq<char> {
    encoded_groups(s, group_count(s.len()))
}

proof fn lemma_alphabet()
    ensures
        BASE64_ALPHABET@.len() == 64,
        BASE64_ALPHABET.is_ascii(),
{
    reveal_strlit("ABCDEFGHIJKLMNOPQRSTUVWXYZabcdefghijklmnopqrstuvwxyz0123456789+/");
}

/// Appends the alphabet symbol of value `v` to `out`.
fn push_symbol(out: &mut String, v: u32)
    requires
        v < 64,
    ensures
        final(out)@ == old(out)@.push(BASE64_ALPHABET@[v as int]),
{
    proof {
        lemma_alphabet();
    }
    let i = v as usize;
    let sym = BASE64_ALPHABET.substring_ascii(i, i + 1);
    out.append(sym);
    assert(sym@ =~= seq![BASE64_ALPHABET@[v as int]]);
    assert(final(out)@ =~= old(out)@.push(BASE64_ALPHABET@[v as int]));
}

proof fn lemma_sextets(b0: u32, b1: u32, b2: u32)
    requires
        b0 < 256,
        b1 < 256,
        b2 < 256,
    ensures
        ((((b0 << 16u32) | (b1 << 8u32) | b2) >> 18u32) & 0x3Fu32) == b0 / 4,
        ((((b0 << 16u32) | (b1 << 8u32) | b2) >> 12u32) & 0x3Fu32) == (b0 % 4) * 16 + b1 / 16,
        ((((b0 << 16u32) | (b1 << 8u32) | b2) >> 6u32) & 0x3Fu32) == (b1 % 16) * 4 + b2 / 64,
        (((b0 << 16u32) | (b1 << 8u32) | b2) & 0x3Fu32) == b2 % 64,
{
    assert(((((b0 << 16u32) | (b1 << 8u32) | b2) >> 18u32) & 0x3Fu32) == b0 / 4) by (bit_vector)
        requires
            b0 < 256,
            b1 < 256,
            b2 < 256,
    ;
    assert(((((b0 << 16u32) | (b1 << 8u32) | b2) >> 12u32) & 0x3Fu32) == (b0 % 4) * 16 + b1 / 16)
        by (bit_vector)
        requires
            b0 < 256,
            b1 < 256,
            b2 < 256,
    ;
    assert(((((b0 << 16u32) | (b1 << 8u32) | b2) >> 6u32) & 0x3Fu32) == (b1 % 16) * 4 + b2 / 64)
        by (bit_vector)
        requires
            b0 < 256,
            b1 < 256,
            b2 < 256,
    ;
    assert((((b0 << 16u32) | (b1 << 8u32) | b2) & 0x3Fu32) == b2 % 64) by (bit_vector)
        requires
            b0 < 256,
            b1 < 256,
            b2 < 256,
    ;
}

proof fn lemma_group_index(g: int, j: int)
    requires
        0 <= g,
        4 * g <= j < 4 * g + 4,
    ensures
        j / 4 == g,
        j % 4 == j - 4 * g,
{
}

/// Encodes `input` as standard padded base64 text.
pub fn base64_encode(input: &[u8]) -> (r: String)
    ensures
        r@ == base64_of(input@),
{
    let n = input.len();
    let mut result = String::new();
    let mut i: usize = 0;
    assert(result@ =~= encoded_groups(input@, 0));
    while i < n
        invariant
            n == input@.len(),
            i <= n,
            i % 3 == 0 || i == n,
            result@ == encoded_groups(input@, ((i + 2) / 3) as nat),
        decreases n - i,
    {
        let rem = n - i;
        let b0 = input[i] as u32;
        let b1: u32 = if rem > 1 {
            input[i + 1] as u32
        } else {
            0
        };
        let b2: u32 = if rem > 2 {
            input[i + 2] as u32
        } else {
            0
        };
        let ghost s = input@;
        let ghost g: int = (i / 3) as int;
        let ghost before = result@;
        assert(i == 3 * g);
        assert(b0 == byte_or_zero(s, 3 * g));
        assert(b1 == byte_or_zero(s, 3 * g + 1));
        assert(b2 == byte_or_zero(s, 3 * g + 2));
        let triple = (b0 << 16u32) | (b1 << 8u32) | b2;
        proof {
            lemma_sextets(b0, b1, b2);
        }
        push_symbol(&mut result, (triple >> 18u32) & 0x3F);
        push_symbol(&mut result, (triple >> 12u32) & 0x3F);
        if rem > 1 {
            push_symbol(&mut result, (triple >> 6u32) & 0x3F);
        } else {
            result.append("=");
            proof {
                reveal_strlit("=");
            }
        }
        if rem > 2 {
            push_symbol(&mut result, triple & 0x3F);
        } else {
            result.append("=");
            proof {
                reveal_strlit("=");
            }
        }
        let ghost next: usize = if rem > 3 { (i + 3) as usize } else { n };
        assert((next + 2) / 3 == g + 1);
        assert forall|j: int| 4 * g <= j < 4 * g + 4 implies #[trigger] result@[j] == group_char(
            s,
            j / 4,
            j % 4,
        ) by {
            lemma_group_index(g, j);
        }
        assert(result@ =~= encoded_groups(s, (g + 1) as nat));
        i = if rem > 3 {
            i + 3
        } else {
            n
        };
    }
    result
}

/// The loading page as a `data:` address whose body is base64 text, which
/// every web view engine renders, whatever characters the page holds.
pub fn loading_html() -> (r: String)
    ensures
        r@ == DATA_URI_PREFIX@ + base64_of(LOADING_PAGE_HTML.spec_bytes()),
{
    let encoded = base64_encode(LOADING_PAGE_HTML.as_bytes());
    let mut uri = String::from_str(DATA_URI_PREFIX);
    uri.append(encoded.as_str());
    uri
}

} // verus!

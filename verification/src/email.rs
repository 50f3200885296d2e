//! Email addresses: a string wrapper that only holds text of the accepted
//! shape, `local@label.label`, with one or more dots in the domain.

use vstd::prelude::*;
use vstd::string::*;

verus! {

/// A letter of either case or a decimal digit.
pub open spec fn is_alphanumeric(c: char) -> bool {
    ('a' <= c && c <= 'z') || ('A' <= c && c <= 'Z') || ('0' <= c && c <= '9')
}

/// A character that may stand before the `@`.
pub open spec fn is_local_char(c: char) -> bool {
    is_alphanumeric(c) || c == '_' || c == '.' || c == '+' || c == '-'
}

/// A character that may stand in a label of the domain.
pub open spec fn is_label_char(c: char) -> bool {
    is_alphanumeric(c) || c == '-'
}

/// The part before the `@`: one or more local characters.
pub open spec fn is_local_part(text: Seq<char>) -> bool {
    &&& text.len() > 0
    &&& forall|i: int| 0 <= i < text.len() ==> is_local_char(#[trigger] text[i])
}

/// The part after the `@`: two or more labels joined by single dots, each
/// label one or more label characters.
pub open spec fn is_domain(text: Seq<char>) -> bool {
    &&& text.len() > 0
    &&& forall|i: int|
        0 <= i < text.len() ==> is_label_char(#[trigger] text[i]) || text[i] == '.'
    &&& text[0] != '.'
    &&& text[text.len() - 1] != '.'
    &&& forall|i: int| 0 <= i < text.len() - 1 ==> !(#[trigger] text[i] == '.' && text[i + 1] == '.')
    &&& exists|i: int| 0 <= i < text.len() && #[trigger] text[i] == '.'
}

/// Whether `text` splits at position `at` into a local part, an `@` and a
/// domain.
pub open spec fn splits_at(text: Seq<char>, at: int) -> bool {
    &&& 0 <= at < text.len()
    &&& text[at] == '@'
    &&& is_local_part(text.take(at))
    &&& is_domain(text.skip(at + 1))
}

/// The accepted shape of an email address.
pub open spec fn is_email(text: Seq<char>) -> bool {
    exists|at: int| splits_at(text, at)
}

/// An accepted address holds ASCII characters only.
pub proof fn lemma_email_is_ascii(text: Seq<char>)
    requires
        is_email(text),
    ensures
        vstd::utf8::is_ascii_chars(text),
{
    let at = choose|at: int| splits_at(text, at);
    assert forall|i: int| 0 <= i < text.len() implies '\0' <= #[trigger] text[i] && text[i]
        <= '\u{7f}' by {
        if i < at {
            assert(text.take(at)[i] == text[i]);
        } else if i > at {
            assert(text.skip(at + 1)[i - at - 1] == text[i]);
        }
    }
}

/// An `@` that follows local characters only is the one place where the text
/// can split.
proof fn lemma_split_is_unique(text: Seq<char>, at: int, other: int)
    requires
        0 <= at < text.len(),
        text[at] == '@',
        forall|j: int| 0 <= j < at ==> is_local_char(#[trigger] text[j]),
        splits_at(text, other),
    ensures
        other == at,
{
    if other < at {
        assert(is_local_char(text[other]));
    } else if other > at {
        assert(text.take(other)[at] == text[at]);
    }
}

fn byte_is_alphanumeric(b: u8) -> (r: bool)
    ensures
        r == is_alphanumeric(b as char),
{
    (b >= 97 && b <= 122) || (b >= 65 && b <= 90) || (b >= 48 && b <= 57)
}

fn byte_is_local(b: u8) -> (r: bool)
    ensures
        r == is_local_char(b as char),
{
    byte_is_alphanumeric(b) || b == 95 || b == 46 || b == 43 || b == 45
}

fn byte_is_label(b: u8) -> (r: bool)
    ensures
        r == is_label_char(b as char),
{
    byte_is_alphanumeric(b) || b == 45
}

/// Decides whether a text has the accepted shape.
pub fn is_valid_email(text: &str) -> (valid: bool)
    ensures
        valid == is_email(text@),
{
    if !text.is_ascii() {
        proof {
            if is_email(text@) {
                lemma_email_is_ascii(text@);
            }
        }
        return false;
    }
    let bytes = text.as_bytes();
    proof {
        vstd::string::is_ascii_spec_bytes(text);
        vstd::utf8::is_ascii_chars_nat_bound(text@);
    }
    let ghost chars = text@;
    assert(bytes@.len() == chars.len());
    assert(forall|j: int| 0 <= j < chars.len() ==> (#[trigger] bytes@[j]) as char == chars[j]);
    let n = bytes.len();
    // The local part, up to the first character that is none of its own.
    let mut at: usize = 0;
    while at < n && byte_is_local(bytes[at])
        invariant
            at <= n,
            n == bytes@.len(),
            bytes@.len() == chars.len(),
            forall|j: int| 0 <= j < chars.len() ==> (#[trigger] bytes@[j]) as char == chars[j],
            forall|j: int| 0 <= j < at ==> is_local_char(#[trigger] chars[j]),
        decreases n - at,
    {
        at = at + 1;
    }
    if at == 0 || at >= n || bytes[at] != 64 {
        proof {
            if is_email(chars) {
                let other = choose|other: int| splits_at(chars, other);
                if other < at {
                    assert(is_local_char(chars[other]));
                } else if at < n {
                    assert(chars.take(other).len() > 0);
                    if other > at {
                        assert(chars.take(other)[at as int] == chars[at as int]);
                        assert(!is_local_char(bytes@[at as int] as char));
                    }
                } else {
                }
            }
        }
        return false;
    }
    assert(chars[at as int] == '@');
    assert(chars.take(at as int) =~= Seq::new(at as nat, |j: int| chars[j]));
    assert(is_local_part(chars.take(at as int)));
    let start = at + 1;
    let ghost domain = chars.skip(start as int);
    proof {
        assert forall|other: int| splits_at(chars, other) implies other == at by {
            lemma_split_is_unique(chars, at as int, other);
        }
        assert(is_email(chars) == is_domain(domain)) by {
            if is_domain(domain) {
                assert(splits_at(chars, at as int));
            }
        }
    }
    // The domain: labels are counted as their dots pass.
    let mut i: usize = start;
    let mut label: usize = 0;
    let mut dots: usize = 0;
    while i < n
        invariant
            start <= i <= n,
            n == bytes@.len(),
            bytes@.len() == chars.len(),
            chars == text@,
            domain == chars.skip(start as int),
            is_email(chars) == is_domain(domain),
            forall|j: int| 0 <= j < chars.len() ==> (#[trigger] bytes@[j]) as char == chars[j],
            label <= i - start,
            dots <= i - start,
            forall|j: int|
                0 <= j < i - start ==> is_label_char(#[trigger] domain[j]) || domain[j] == '.',
            i > start ==> domain[0] != '.',
            forall|j: int|
                0 <= j < i - start - 1 ==> !(#[trigger] domain[j] == '.' && domain[j + 1] == '.'),
            (label == 0) == (i == start || domain[i - start - 1] == '.'),
            (dots > 0) == (exists|j: int| 0 <= j < i - start && #[trigger] domain[j] == '.'),
        decreases n - i,
    {
        let b = bytes[i];
        assert(domain[i - start] == chars[i as int]);
        if b == 46 {
            if label == 0 {
                proof {
                    if is_domain(domain) {
                        if i > start {
                            assert(domain[i - start - 1] == '.' && domain[i - start - 1 + 1] == '.');
                        }
                    }
                }
                return false;
            }
            label = 0;
            dots = dots + 1;
            assert(domain[i - start] == '.');
        } else if byte_is_label(b) {
            label = label + 1;
            assert(domain[i - start] != '.');
        } else {
            proof {
                if is_domain(domain) {
                    assert(is_label_char(domain[i - start]) || domain[i - start] == '.');
                }
            }
            return false;
        }
        i = i + 1;
    }
    proof {
        assert(domain.len() == n - start);
    }
    label > 0 && dots > 0
}

/// Text that is known to be an email address of the accepted shape.
#[derive(Debug, PartialEq, Eq)]
pub struct EmailAddress {
    text: String,
}

impl View for EmailAddress {
    type V = Seq<char>;

    closed spec fn view(&self) -> Seq<char> {
        self.text@
    }
}

impl Clone for EmailAddress {
    fn clone(&self) -> (copy: EmailAddress)
        ensures
            copy@ == self@,
    {
        self.duplicate()
    }
}

impl EmailAddress {
    #[verifier::type_invariant]
    spec fn well_formed(self) -> bool {
        is_email(self.text@)
    }

    /// Accepts `text` exactly when it has the shape of an email address.
    pub fn try_from(text: String) -> (address: Result<EmailAddress, ()>)
        ensures
            address is Ok == is_email(text@),
            address matches Ok(a) ==> a@ == text@,
    {
        if is_valid_email(text.as_str()) {
            Ok(EmailAddress { text })
        } else {
            Err(())
        }
    }

    /// The address as text.
    pub fn as_str(&self) -> (text: &str)
        ensures
            text@ == self@,
            is_email(text@),
    {
        proof {
            use_type_invariant(self);
        }
        self.text.as_str()
    }

    /// The address as an owned string.
    pub fn into_string(self) -> (text: String)
        ensures
            text@ == self@,
            is_email(text@),
    {
        proof {
            use_type_invariant(&self);
        }
        self.text
    }

    /// The address as a fresh string.
    pub fn to_text(&self) -> (text: String)
        ensures
            text@ == self@,
            is_email(text@),
    {
        proof {
            use_type_invariant(self);
        }
        self.text.clone()
    }

    /// A second value holding the same address.
    pub fn duplicate(&self) -> (copy: EmailAddress)
        ensures
            copy@ == self@,
    {
        proof {
            use_type_invariant(self);
        }
        EmailAddress { text: self.text.clone() }
    }
}

} // verus!

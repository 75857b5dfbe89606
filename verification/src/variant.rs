//! The selector of the three image variants.

use vstd::prelude::*;
use vstd::string::*;

use crate::error::XtaskError;

verus! {

/// Which cipher, signature scheme and container layout an image uses.
#[derive(Debug, Clone, Copy, PartialEq, Eq, Structural)]
pub enum EncryptionType {
    /// Plain payload with a SHA-256 digest.
    Plain,
    /// SM4-CBC ciphertext signed with SM2.
    Sm4,
    /// AES-256-GCM ciphertext whose tag is signed with RSA.
    Aes,
}

/// The code point of `c` after an ASCII upper-case letter is folded to lower case.
pub open spec fn folded(c: char) -> u32 {
    if 'A' <= c && c <= 'Z' {
        (c as u32 + 32) as u32
    } else {
        c as u32
    }
}

/// Whether `s` spells `name` when ASCII letter case is ignored in `s`.
pub open spec fn spells(s: Seq<char>, name: Seq<char>) -> bool {
    s.len() == name.len() && forall|i: int|
        0 <= i < s.len() ==> folded(#[trigger] s[i]) == name[i] as u32
}

/// The variant that a selector text names, if it names one.
pub open spec fn selected_variant(s: Seq<char>) -> Option<EncryptionType> {
    if spells(s, seq!['n', 'o', 'n', 'e']) {
        Some(EncryptionType::Plain)
    } else if spells(s, seq!['s', 'm', '4']) {
        Some(EncryptionType::Sm4)
    } else if spells(s, seq!['a', 'e', 's']) {
        Some(EncryptionType::Aes)
    } else {
        None
    }
}

/// The four-byte code that stands for a variant inside an image.
pub open spec fn wire_code(variant: EncryptionType) -> u32 {
    match variant {
        EncryptionType::Plain => 0,
        EncryptionType::Sm4 => 1,
        EncryptionType::Aes => 2,
    }
}

fn fold(c: char) -> (r: u32)
    ensures
        r == folded(c),
{
    if 'A' <= c && c <= 'Z' {
        c as u32 + 32
    } else {
        c as u32
    }
}

/// Compares `s` with `name` letter by letter, ignoring ASCII case in `s`.
fn spells_name(s: &str, name: &str) -> (r: bool)
    ensures
        r == spells(s@, name@),
{
    let n = s.unicode_len();
    if n != name.unicode_len() {
        return false;
    }
    let mut i: usize = 0;
    while i < n
        invariant
            i <= n,
            n == s@.len(),
            n == name@.len(),
            forall|j: int| 0 <= j < i ==> folded(#[trigger] s@[j]) == name@[j] as u32,
        decreases n - i,
    {
        if fold(s.get_char(i)) != name.get_char(i) as u32 {
            return false;
        }
        i += 1;
    }
    true
}

impl EncryptionType {
    /// The wire code of this variant.
    pub fn code(self) -> (r: u32)
        ensures
            r == wire_code(self),
    {
        match self {
            EncryptionType::Plain => 0,
            EncryptionType::Sm4 => 1,
            EncryptionType::Aes => 2,
        }
    }

    /// Reads a variant from its name: `none`, `sm4` or `aes`, in any letter case.
    pub fn from_str(s: &str) -> (r: Result<EncryptionType, XtaskError>)
        ensures
            match selected_variant(s@) {
                Some(variant) => r == Ok::<EncryptionType, XtaskError>(variant),
                None => r == Err::<EncryptionType, XtaskError>(XtaskError::InvalidEncryptionType),
            },
    {
        proof {
            reveal_strlit("none");
            reveal_strlit("sm4");
            reveal_strlit("aes");
            assert("none"@ =~= seq!['n', 'o', 'n', 'e']);
            assert("sm4"@ =~= seq!['s', 'm', '4']);
            assert("aes"@ =~= seq!['a', 'e', 's']);
        }
        if spells_name(s, "none") {
            Ok(EncryptionType::Plain)
        } else if spells_name(s, "sm4") {
            Ok(EncryptionType::Sm4)
        } else if spells_name(s, "aes") {
            Ok(EncryptionType::Aes)
        } else {
            Err(XtaskError::InvalidEncryptionType)
        }
    }
}

impl Default for EncryptionType {
    /// The plain variant.
    fn default() -> (r: EncryptionType)
        ensures
            r == EncryptionType::Plain,
    {
        EncryptionType::Plain
    }
}

impl std::str::FromStr for EncryptionType {
    type Err = XtaskError;

    /// Reads a variant from its name, as the function of the same name on the type does.
    fn from_str(s: &str) -> (r: Result<EncryptionType, XtaskError>)
        ensures
            match selected_variant(s@) {
                Some(variant) => r == Ok::<EncryptionType, XtaskError>(variant),
                None => r == Err::<EncryptionType, XtaskError>(XtaskError::InvalidEncryptionType),
            },
    {
        EncryptionType::from_str(s)
    }
}

} // verus!

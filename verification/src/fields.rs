//! Credential form fields and the validation of inline values, PEM blocks in particular.

use vstd::prelude::*;

use crate::text::{join_strings, join_with, texts, trim_text, trimmed};

verus! {

/// A value that failed validation, with the message shown to the user.
#[derive(Debug)]
pub struct FieldError {
    pub message: String,
}

/// The label of a PEM block, between `-----BEGIN ` and `-----`.
#[derive(Clone, Copy, Debug, PartialEq, Eq, Structural)]
pub enum PemTag {
    Certificate,
    PrivateKey,
    RsaPrivateKey,
    EcPrivateKey,
}

impl PemTag {
    pub open spec fn name(self) -> Seq<char> {
        match self {
            PemTag::Certificate => "CERTIFICATE"@,
            PemTag::PrivateKey => "PRIVATE KEY"@,
            PemTag::RsaPrivateKey => "RSA PRIVATE KEY"@,
            PemTag::EcPrivateKey => "EC PRIVATE KEY"@,
        }
    }

    /// The block label.
    pub fn as_str(self) -> (r: &'static str)
        ensures
            r@ == self.name(),
    {
        match self {
            PemTag::Certificate => "CERTIFICATE",
            PemTag::PrivateKey => "PRIVATE KEY",
            PemTag::RsaPrivateKey => "RSA PRIVATE KEY",
            PemTag::EcPrivateKey => "EC PRIVATE KEY",
        }
    }
}

/// What an inline value of a field must look like.
#[derive(Clone, Copy, Debug, PartialEq, Eq, Structural)]
pub enum InlineFormat {
    /// Any text.
    Plain,
    /// A PEM-encoded private key.
    PemPrivateKey,
    /// A PEM-encoded certificate.
    PemCertificate,
}

/// The labels of PEM tags.
pub open spec fn tag_names(tags: Seq<PemTag>) -> Seq<Seq<char>> {
    tags.map_values(|t: PemTag| t.name())
}

/// The tags parsed from PEM text, or the parser's error message.
pub uninterp spec fn pem_parse(text: Seq<char>) -> Result<Seq<Seq<char>>, Seq<char>>;

/// `pem::parse_many(text)`: the tags of the PEM blocks in `text`, in order, or
/// the parser's error message. The result is named by `pem_parse`, a function
/// of the text alone; nothing else is claimed of the parser.
#[verifier::external_body]
fn parse_pem_tags(text: &str) -> (r: Result<Vec<String>, String>)
    ensures
        match r {
            Ok(tags) => pem_parse(text@) == Ok::<Seq<Seq<char>>, Seq<char>>(texts(tags@)),
            Err(e) => pem_parse(text@) == Err::<Seq<Seq<char>>, Seq<char>>(e@),
        },
{
    match pem::parse_many(text) {
        Ok(entries) => Ok(entries.iter().map(|p| p.tag().to_string()).collect()),
        Err(e) => Err(e.to_string()),
    }
}

/// Some parsed tag is one of `allowed`.
pub open spec fn any_allowed(found: Seq<Seq<char>>, allowed: Seq<PemTag>) -> bool {
    exists|i: int, j: int| 0 <= i < found.len() && 0 <= j < allowed.len() && found[i] == allowed[j].name()
}

/// The verdict on parsed PEM text for `field`: `None` when it holds a block
/// with an allowed tag, else the message saying why not.
pub open spec fn pem_verdict_of(parsed: Result<Seq<Seq<char>>, Seq<char>>, field: Seq<char>, allowed: Seq<PemTag>) -> Option<Seq<char>> {
    match parsed {
        Err(e) => Some(field + " is not valid PEM: "@ + e),
        Ok(found) => if found.len() == 0 {
            Some(field + " contains no PEM data"@)
        } else if any_allowed(found, allowed) {
            None
        } else {
            Some(
                field + " must contain a "@ + join_with(tag_names(allowed), " or "@) + " PEM block, found: "@
                    + join_with(found, ", "@),
            )
        },
    }
}

pub open spec fn outcome(r: Result<(), FieldError>) -> Option<Seq<char>> {
    match r {
        Ok(_) => None,
        Err(e) => Some(e.message@),
    }
}

fn tag_is_allowed(tag: &String, allowed: &Vec<PemTag>) -> (r: bool)
    ensures
        r == exists|j: int| 0 <= j < allowed@.len() && tag@ == allowed@[j].name(),
{
    let mut j: usize = 0;
    while j < allowed.len()
        invariant
            j <= allowed@.len(),
            forall|k: int| 0 <= k < j ==> tag@ != (#[trigger] allowed@[k]).name(),
        decreases allowed@.len() - j,
    {
        if crate::text::same_text(tag.as_str(), allowed[j].as_str()) {
            return true;
        }
        j = j + 1;
    }
    false
}

/// The verdict on parsed PEM text: accepted when some block carries an allowed
/// tag; otherwise an error naming the field and what was found.
pub fn pem_verdict(parsed: &Result<Vec<String>, String>, field_name: &str, allowed: &Vec<PemTag>) -> (r: Result<(), FieldError>)
    ensures
        outcome(r) == pem_verdict_of(
            match parsed {
                Ok(t) => Ok::<Seq<Seq<char>>, Seq<char>>(texts(t@)),
                Err(e) => Err::<Seq<Seq<char>>, Seq<char>>(e@),
            },
            field_name@,
            allowed@,
        ),
{
    match parsed {
        Err(e) => {
            let message = crate::text::join3(field_name, " is not valid PEM: ", e.as_str());
            Err(FieldError { message })
        },
        Ok(found) => {
            if found.len() == 0 {
                return Err(FieldError { message: crate::text::join2(field_name, " contains no PEM data") });
            }
            let mut i: usize = 0;
            while i < found.len()
                invariant
                    i <= found@.len(),
                    found@.len() > 0,
                    *parsed == Ok::<Vec<String>, String>(*found),
                    forall|k: int, j: int| 0 <= k < i && 0 <= j < allowed@.len() ==> (#[trigger] found@[k])@ != (#[trigger] allowed@[j]).name(),
                decreases found@.len() - i,
            {
                if tag_is_allowed(&found[i], allowed) {
                    proof {
                        let j = choose|j: int| 0 <= j < allowed@.len() && found@[i as int]@ == allowed@[j].name();
                        assert(texts(found@)[i as int] == allowed@[j].name());
                        assert(texts(found@).len() == found@.len());
                        assert(any_allowed(texts(found@), allowed@));
                    }
                    return Ok(());
                }
                i = i + 1;
            }
            let mut names: Vec<String> = Vec::new();
            let mut j: usize = 0;
            while j < allowed.len()
                invariant
                    j <= allowed@.len(),
                    texts(names@) == tag_names(allowed@.take(j as int)),
                decreases allowed@.len() - j,
            {
                let ghost before = names@;
                names.push(String::from_str(allowed[j].as_str()));
                proof {
                    assert(texts(names@) =~= texts(before).push(allowed@[j as int].name()));
                    assert(tag_names(allowed@.take(j + 1)) =~= tag_names(allowed@.take(j as int)).push(allowed@[j as int].name()));
                }
                j = j + 1;
            }
            proof {
                assert(allowed@.take(j as int) =~= allowed@);
                assert(!any_allowed(texts(found@), allowed@)) by {
                    if any_allowed(texts(found@), allowed@) {
                        let (a, b) = choose|a: int, b: int| 0 <= a < texts(found@).len() && 0 <= b < allowed@.len() && texts(found@)[a] == allowed@[b].name();
                        assert(found@[a]@ == texts(found@)[a]);
                    }
                }
            }
            let expected = join_strings(&names, " or ");
            let listed = join_strings(found, ", ");
            let mut message = crate::text::join3(field_name, " must contain a ", expected.as_str());
            message.append(" PEM block, found: ");
            message.append(listed.as_str());
            Err(FieldError { message })
        },
    }
}

/// Parse PEM and require at least one block with an allowed tag. Text that is
/// empty once trimmed passes.
fn validate_pem(value: &str, field_name: &str, allowed: &Vec<PemTag>) -> (r: Result<(), FieldError>)
    ensures
        outcome(r) == (if trimmed(value@).len() == 0 {
            None
        } else {
            pem_verdict_of(pem_parse(trimmed(value@)), field_name@, allowed@)
        }),
{
    let text = trim_text(value);
    if text.is_empty() {
        return Ok(());
    }
    let parsed = parse_pem_tags(text);
    pem_verdict(&parsed, field_name, allowed)
}

impl InlineFormat {
    pub open spec fn tags(self) -> Seq<PemTag> {
        match self {
            InlineFormat::Plain => Seq::empty(),
            InlineFormat::PemCertificate => seq![PemTag::Certificate],
            InlineFormat::PemPrivateKey => seq![PemTag::PrivateKey, PemTag::RsaPrivateKey, PemTag::EcPrivateKey],
        }
    }

    /// The verdict on `value` for field `field`: plain values always pass; PEM
    /// values pass when empty once trimmed or holding a block with an allowed tag.
    pub open spec fn verdict(self, value: Seq<char>, field: Seq<char>) -> Option<Seq<char>> {
        if self.tags().len() == 0 || trimmed(value).len() == 0 {
            None
        } else {
            pem_verdict_of(pem_parse(trimmed(value)), field, self.tags())
        }
    }

    /// The PEM tags this format accepts; none for plain values.
    pub fn allowed_pem_tags(&self) -> (r: Vec<PemTag>)
        ensures
            r@ == self.tags(),
    {
        match self {
            InlineFormat::Plain => Vec::new(),
            InlineFormat::PemCertificate => vec![PemTag::Certificate],
            InlineFormat::PemPrivateKey => vec![PemTag::PrivateKey, PemTag::RsaPrivateKey, PemTag::EcPrivateKey],
        }
    }

    /// Check that `value` has this format.
    pub fn validate(&self, value: &str, field_name: &str) -> (r: Result<(), FieldError>)
        ensures
            outcome(r) == self.verdict(value@, field_name@),
    {
        let tags = self.allowed_pem_tags();
        if tags.len() == 0 {
            return Ok(());
        }
        validate_pem(value, field_name, &tags)
    }
}

} // verus!

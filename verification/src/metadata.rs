//! The descriptive record of a token.

use vstd::prelude::*;
use vstd::string::StringExecFns;

verus! {

/// A metadata record as mathematics.
pub struct MetadataView {
    pub spec: Seq<char>,
    pub name: Seq<char>,
    pub symbol: Seq<char>,
    pub icon: Option<Seq<char>>,
    pub reference: Option<Seq<char>>,
    pub reference_hash: Option<Seq<u8>>,
    pub decimals: nat,
}

impl MetadataView {
    /// The record names the one known format, and it carries a reference
    /// exactly when it carries the reference's hash, which has 32 bytes.
    pub open spec fn valid(self) -> bool {
        &&& self.spec == "ft-1.0.0"@
        &&& self.reference.is_some() == self.reference_hash.is_some()
        &&& self.reference_hash.is_some() ==> self.reference_hash.unwrap().len() == 32
    }
}

/// Name, symbol and precision of a token, with where to read more.
#[derive(Clone, Debug)]
pub struct FungibleTokenMetadata {
    pub spec: String,
    pub name: String,
    pub symbol: String,
    pub icon: Option<String>,
    pub reference: Option<String>,
    pub reference_hash: Option<Vec<u8>>,
    pub decimals: u8,
}

/// The characters of a text that may be absent.
pub open spec fn text_view(text: Option<String>) -> Option<Seq<char>> {
    match text {
        Some(t) => Some(t@),
        None => None,
    }
}

/// The bytes of a byte string that may be absent.
pub open spec fn bytes_view(bytes: Option<Vec<u8>>) -> Option<Seq<u8>> {
    match bytes {
        Some(b) => Some(b@),
        None => None,
    }
}

impl View for FungibleTokenMetadata {
    type V = MetadataView;

    open spec fn view(&self) -> MetadataView {
        MetadataView {
            spec: self.spec@,
            name: self.name@,
            symbol: self.symbol@,
            icon: text_view(self.icon),
            reference: text_view(self.reference),
            reference_hash: bytes_view(self.reference_hash),
            decimals: self.decimals as nat,
        }
    }
}

fn copy_text(text: &Option<String>) -> (copy: Option<String>)
    ensures
        text_view(copy) == text_view(*text),
{
    match text {
        Some(t) => Some(t.clone()),
        None => None,
    }
}

fn copy_bytes(bytes: &Option<Vec<u8>>) -> (copy: Option<Vec<u8>>)
    ensures
        bytes_view(copy) == bytes_view(*bytes),
{
    match bytes {
        Some(b) => {
            let mut copy: Vec<u8> = Vec::new();
            let mut i: usize = 0;
            while i < b.len()
                invariant
                    i <= b@.len(),
                    copy@ == b@.subrange(0, i as int),
                decreases b@.len() - i,
            {
                copy.push(b[i]);
                assert(copy@ =~= b@.subrange(0, i + 1));
                i += 1;
            }
            assert(copy@ =~= b@);
            Some(copy)
        },
        None => None,
    }
}

impl FungibleTokenMetadata {
    /// Whether the record is well formed.
    pub fn is_valid(&self) -> (valid: bool)
        ensures
            valid == self@.valid(),
    {
        let known = String::from_str("ft-1.0.0");
        if !(self.spec == known) {
            return false;
        }
        match &self.reference_hash {
            Some(hash) => self.reference.is_some() && hash.len() == 32,
            None => self.reference.is_none(),
        }
    }

    /// A second record that says the same.
    pub fn duplicate(&self) -> (copy: Self)
        ensures
            copy@ == self@,
    {
        FungibleTokenMetadata {
            spec: self.spec.clone(),
            name: self.name.clone(),
            symbol: self.symbol.clone(),
            icon: copy_text(&self.icon),
            reference: copy_text(&self.reference),
            reference_hash: copy_bytes(&self.reference_hash),
            decimals: self.decimals,
        }
    }
}

} // verus!

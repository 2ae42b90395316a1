//! The records that the ledger leaves of changes to the supply.

use vstd::prelude::*;

verus! {

/// Whether tokens came into being or went out of it.
#[derive(Clone, Copy, Debug, PartialEq, Eq, Structural)]
pub enum AuditKind {
    Mint,
    Burn,
}

/// An audit record as mathematics.
pub struct AuditView {
    pub kind: AuditKind,
    pub owner_id: Seq<char>,
    pub amount: nat,
    pub memo: Seq<char>,
}

/// One change to the supply: whose balance changed, by how much, and a note.
#[derive(Clone, Debug)]
pub struct AuditRecord {
    pub kind: AuditKind,
    pub owner_id: String,
    pub amount: u128,
    pub memo: String,
}

impl View for AuditRecord {
    type V = AuditView;

    open spec fn view(&self) -> AuditView {
        AuditView {
            kind: self.kind,
            owner_id: self.owner_id@,
            amount: self.amount as nat,
            memo: self.memo@,
        }
    }
}

/// A transfer record as mathematics.
pub struct TransferView {
    pub old_owner_id: Seq<char>,
    pub new_owner_id: Seq<char>,
    pub amount: nat,
    pub memo: Option<Seq<char>>,
}

/// One transfer: from whom, to whom, how much, and the sender's note.
#[derive(Clone, Debug)]
pub struct TransferRecord {
    pub old_owner_id: String,
    pub new_owner_id: String,
    pub amount: u128,
    pub memo: Option<String>,
}

impl View for TransferRecord {
    type V = TransferView;

    open spec fn view(&self) -> TransferView {
        TransferView {
            old_owner_id: self.old_owner_id@,
            new_owner_id: self.new_owner_id@,
            amount: self.amount as nat,
            memo: match self.memo {
                Some(note) => Some(note@),
                None => None,
            },
        }
    }
}

} // verus!

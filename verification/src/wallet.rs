//! What a wallet keeps of the transactions it has scanned.

use vstd::prelude::*;
use crate::primitives::{Amount, MAX_MONEY};

verus! {

/// `bls12_381::Scalar`, carried as an opaque value.
#[verifier::external_type_specification]
#[verifier::external_body]
pub struct ExScalar(bls12_381::Scalar);

/// `zcash_note_encryption::EphemeralKeyBytes`, carried as an opaque value.
#[verifier::external_type_specification]
#[verifier::external_body]
pub struct ExEphemeralKeyBytes(zcash_note_encryption::EphemeralKeyBytes);

/// `zip32::AccountId`, carried as an opaque value.
#[verifier::external_type_specification]
#[verifier::external_body]
pub struct ExAccountId(zip32::AccountId);

/// `zcash_protocol::TxId`, carried as an opaque value.
#[verifier::external_type_specification]
#[verifier::external_body]
pub struct ExTxId(zcash_protocol::TxId);

/// An amount of money that is not negative and at most `MAX_MONEY`.
#[derive(Debug, Clone, Copy, PartialEq, Eq)]
pub struct NonNegativeAmount {
    value: u64,
}

impl View for NonNegativeAmount {
    type V = u64;

    closed spec fn view(&self) -> u64 {
        self.value
    }
}

impl NonNegativeAmount {
    #[verifier::type_invariant]
    spec fn in_range(self) -> bool {
        self.value <= MAX_MONEY
    }

    /// The amount `value`, if it is within the monetary range.
    pub fn from_u64(value: u64) -> (r: Option<Self>)
        ensures
            r is Some <==> value <= MAX_MONEY,
            r is Some ==> r->Some_0@ == value,
    {
        if value <= MAX_MONEY as u64 {
            Some(NonNegativeAmount { value })
        } else {
            None
        }
    }

    /// The amount as an integer.
    pub fn into_u64(self) -> (r: u64)
        ensures
            r == self@,
            r <= MAX_MONEY,
    {
        proof {
            use_type_invariant(&self);
        }
        self.value
    }
}

/// The address of a transparent output: the hash of a public key or of a
/// script.
#[derive(Debug, Clone, Copy, PartialEq, Eq)]
pub enum TransparentAddress {
    PublicKeyHash([u8; 20]),
    ScriptHash([u8; 20]),
}

/// What `zcash_transparent::bundle::TxOut::recipient_address` finds for an
/// output with the script `script`: the address that the script pays to, if
/// it is a standard payment to a public key hash or a script hash.
pub uninterp spec fn script_recipient(script: Seq<u8>) -> Option<TransparentAddress>;

/// Makes an output with the script and calls
/// `zcash_transparent::bundle::TxOut::recipient_address` on it. The value of
/// the output plays no part in that. Nothing is claimed about which scripts
/// have a recipient.
#[verifier::external_body]
fn recipient_of_script(script: &Vec<u8>) -> (r: Option<TransparentAddress>)
    ensures
        r == script_recipient(script@),
{
    let mut script_pubkey = zcash_transparent::address::Script::default();
    script_pubkey.0.0 = script.clone();
    match zcash_transparent::bundle::TxOut::new(
        zcash_protocol::value::Zatoshis::ZERO,
        script_pubkey,
    ).recipient_address() {
        Some(zcash_transparent::address::TransparentAddress::PublicKeyHash(hash)) => Some(
            TransparentAddress::PublicKeyHash(hash),
        ),
        Some(zcash_transparent::address::TransparentAddress::ScriptHash(hash)) => Some(
            TransparentAddress::ScriptHash(hash),
        ),
        None => None,
    }
}

/// A pointer to an output of a transaction.
#[derive(Debug, Clone, Copy, PartialEq, Eq)]
pub struct OutPoint {
    pub hash: [u8; 32],
    pub n: u32,
}

impl OutPoint {
    /// The pointer to output `n` of the transaction with the identifier
    /// `hash`.
    pub fn new(hash: [u8; 32], n: u32) -> (r: Self)
        ensures
            r == (OutPoint { hash, n }),
    {
        OutPoint { hash, n }
    }
}

/// A transparent output: a value and the script that guards it.
#[derive(Debug, PartialEq, Eq)]
pub struct TxOut {
    pub value: NonNegativeAmount,
    pub script_pubkey: Vec<u8>,
}

impl TxOut {
    /// The output with the given value and script.
    pub fn new(value: NonNegativeAmount, script_pubkey: Vec<u8>) -> (r: Self)
        ensures
            r == (TxOut { value, script_pubkey }),
    {
        TxOut { value, script_pubkey }
    }

    /// The address that the output pays to, if its script is a standard
    /// payment to a public key hash or a script hash.
    pub fn recipient_address(&self) -> (r: Option<TransparentAddress>)
        ensures
            r == script_recipient(self.script_pubkey@),
    {
        recipient_of_script(&self.script_pubkey)
    }
}

/// The height of a block.
#[derive(Debug, Clone, Copy, PartialEq, Eq, Structural)]
pub struct BlockHeight {
    pub height: u32,
}

impl BlockHeight {
    /// The height `height`.
    pub fn from_u32(height: u32) -> (r: Self)
        ensures
            r.height == height,
    {
        BlockHeight { height }
    }
}

/// A transparent output that the wallet can spend, with the address that it
/// pays to.
#[derive(Debug, PartialEq, Eq)]
pub struct WalletTransparentOutput {
    outpoint: OutPoint,
    txout: TxOut,
    height: BlockHeight,
    recipient_address: TransparentAddress,
}

/// The model of a wallet's transparent output.
pub struct SpecWalletTransparentOutput {
    pub outpoint: OutPoint,
    pub txout: TxOut,
    pub height: BlockHeight,
    pub recipient_address: TransparentAddress,
}

impl View for WalletTransparentOutput {
    type V = SpecWalletTransparentOutput;

    closed spec fn view(&self) -> SpecWalletTransparentOutput {
        SpecWalletTransparentOutput {
            outpoint: self.outpoint,
            txout: self.txout,
            height: self.height,
            recipient_address: self.recipient_address,
        }
    }
}

impl WalletTransparentOutput {
    #[verifier::type_invariant]
    spec fn addressed(self) -> bool {
        script_recipient(self.txout.script_pubkey@) == Some(self.recipient_address)
    }

    /// The wallet's view of the output, if the output pays to an address:
    /// the parts are kept as they are, and the address is the one that the
    /// output's script pays to.
    pub fn from_parts(outpoint: OutPoint, txout: TxOut, height: BlockHeight) -> (r: Option<
        WalletTransparentOutput,
    >)
        ensures
            r is Some <==> script_recipient(txout.script_pubkey@) is Some,
            r matches Some(output) ==> output@ == (SpecWalletTransparentOutput {
                outpoint,
                txout,
                height,
                recipient_address: script_recipient(txout.script_pubkey@)->Some_0,
            }),
    {
        match txout.recipient_address() {
            Some(recipient_address) => Some(
                WalletTransparentOutput { outpoint, txout, height, recipient_address },
            ),
            None => None,
        }
    }

    /// The pointer to the output.
    pub fn outpoint(&self) -> (r: &OutPoint)
        ensures
            *r == self@.outpoint,
    {
        &self.outpoint
    }

    /// The output.
    pub fn txout(&self) -> (r: &TxOut)
        ensures
            *r == self@.txout,
    {
        &self.txout
    }

    /// The height of the block that holds the output.
    pub fn height(&self) -> (r: BlockHeight)
        ensures
            r == self@.height,
    {
        self.height
    }

    /// The address that the output pays to.
    pub fn recipient_address(&self) -> (r: &TransparentAddress)
        ensures
            *r == self@.recipient_address,
            script_recipient(self@.txout.script_pubkey@) == Some(*r),
    {
        proof {
            use_type_invariant(self);
        }
        &self.recipient_address
    }
}

/// The nullifier of a shielded note of the older pool.
#[derive(Debug, Clone, Copy, PartialEq, Eq)]
pub struct SaplingNullifier(pub [u8; 32]);

/// The diversifier of a payment address.
#[derive(Debug, Clone, Copy, PartialEq, Eq)]
pub struct Diversifier(pub [u8; 11]);

/// The randomness of a note, in the form of before or after the change of
/// its derivation.
#[derive(Debug, Clone, Copy, PartialEq, Eq)]
pub enum Rseed {
    BeforeZip212([u8; 32]),
    AfterZip212([u8; 32]),
}

/// A node of the note commitment tree.
#[derive(Debug, Clone, Copy, PartialEq, Eq)]
pub struct Node(pub [u8; 32]);

/// The frontier of a note commitment tree.
#[derive(Debug, PartialEq, Eq)]
pub struct CommitmentTree {
    pub left: Option<Node>,
    pub right: Option<Node>,
    pub parents: Vec<Option<Node>>,
}

/// The path of a note in a note commitment tree that is still growing.
#[derive(Debug, PartialEq, Eq)]
pub struct IncrementalWitness {
    pub tree: CommitmentTree,
    pub filled: Vec<Node>,
    pub cursor_depth: usize,
    pub cursor: Option<CommitmentTree>,
}

/// A shielded payment address of the older pool.
#[derive(Debug, Clone, Copy, PartialEq, Eq)]
pub struct PaymentAddress {
    pub diversifier: Diversifier,
    pub pk_d: [u8; 32],
}

/// A shielded note of the older pool.
#[derive(Debug, Clone, Copy, PartialEq, Eq)]
pub struct SaplingNote {
    pub value: u64,
    pub g_d: [u8; 32],
    pub pk_d: [u8; 32],
    pub rseed: Rseed,
}

/// A key that lets its holder decrypt the outputs of sent transactions.
#[derive(Debug, Clone, Copy, PartialEq, Eq)]
pub struct OutgoingViewingKey(pub [u8; 32]);

/// What a wallet keeps of a transaction.
pub struct WalletTx<N> {
    pub txid: zcash_protocol::TxId,
    pub index: usize,
    pub num_spends: usize,
    pub num_outputs: usize,
    pub shielded_spends: Vec<WalletShieldedSpend>,
    pub shielded_outputs: Vec<WalletShieldedOutput<N>>,
}

/// What a wallet keeps of a shielded spend.
pub struct WalletShieldedSpend {
    pub index: usize,
    pub nf: SaplingNullifier,
    pub account: zip32::AccountId,
}

/// What a wallet keeps of a shielded output.
pub struct WalletShieldedOutput<N> {
    pub index: usize,
    pub cmu: bls12_381::Scalar,
    pub ephemeral_key: zcash_note_encryption::EphemeralKeyBytes,
    pub account: zip32::AccountId,
    pub note: SaplingNote,
    pub to: PaymentAddress,
    pub is_change: bool,
    pub witness: IncrementalWitness,
    pub nf: N,
}

/// A note that the wallet can spend, with what note selection needs to
/// know of it.
pub struct SpendableNote {
    pub diversifier: Diversifier,
    pub note_value: Amount,
    pub rseed: Rseed,
    pub witness: IncrementalWitness,
}

/// Which outgoing viewing key shall be able to decrypt the outputs of a
/// transaction.
pub enum OvkPolicy {
    /// The key of the sender: the sender can decrypt the outputs.
    Sender,
    /// The given key: whoever holds it can decrypt the outputs.
    Custom(OutgoingViewingKey),
    /// No key: only the recipients can decrypt the outputs.
    Discard,
}

} // verus!

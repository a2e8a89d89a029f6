//! The cross-chain message protocol: the payload schema, its binary wire
//! codec, and the inbound dispatch that mints or burns the synthetic claim
//! token. The transport that carries the bytes is an external collaborator;
//! delivery is fire-and-forget and carries no replay protection.

use vstd::prelude::*;

use vstd::bytes::{
    lemma_auto_spec_u32_to_from_le_bytes, lemma_auto_spec_u64_to_from_le_bytes,
    spec_u32_from_le_bytes, spec_u32_to_le_bytes, spec_u64_from_le_bytes, spec_u64_to_le_bytes,
    u32_from_le_bytes, u32_to_le_bytes, u64_from_le_bytes, u64_to_le_bytes,
};
use vstd::slice::{slice_subrange, slice_to_vec};

use crate::errors::ErrorCode;
use crate::events::CrossChainMessageReceived;
use crate::state::{AccountId, Pool};

verus! {

/// The payload of one cross-chain settlement message. Constructed on the
/// sending side, decoded and consumed once on the receiving side.
#[derive(Debug)]
pub struct CrossChainMessage {
    pub user: AccountId,
    pub action: Vec<u8>,
    pub asset: AccountId,
    pub amount: u64,
    pub source_chain: u64,
    pub dest_chain: u64,
}

/// The mathematical shape of a message: every field as a plain value.
#[verifier::ext_equal]
pub struct MessageModel {
    pub user: Seq<u8>,
    pub action: Seq<u8>,
    pub asset: Seq<u8>,
    pub amount: u64,
    pub source_chain: u64,
    pub dest_chain: u64,
}

impl View for CrossChainMessage {
    type V = MessageModel;

    open spec fn view(&self) -> MessageModel {
        MessageModel {
            user: self.user@,
            action: self.action@,
            asset: self.asset@,
            amount: self.amount,
            source_chain: self.source_chain,
            dest_chain: self.dest_chain,
        }
    }
}

/// The action tag of a borrow settlement: the bytes of "borrow".
pub open spec fn action_borrow() -> Seq<u8> {
    seq![98u8, 111u8, 114u8, 114u8, 111u8, 119u8]
}

/// The action tag of a repay settlement: the bytes of "repay".
pub open spec fn action_repay() -> Seq<u8> {
    seq![114u8, 101u8, 112u8, 97u8, 121u8]
}

/// Builds the "borrow" action tag.
pub fn borrow_action_bytes() -> (v: Vec<u8>)
    ensures
        v@ == action_borrow(),
{
    let mut v: Vec<u8> = Vec::new();
    v.push(98u8);
    v.push(111u8);
    v.push(114u8);
    v.push(114u8);
    v.push(111u8);
    v.push(119u8);
    proof {
        assert(v@ =~= action_borrow());
    }
    v
}

/// An outbound dispatch: the payload to encode plus the 32-byte receiver the
/// transport delivers it to.
#[derive(Debug)]
pub struct OutboundMessage {
    pub message: CrossChainMessage,
    pub receiver: [u8; 32],
}

/// Builds the outbound borrow-settlement dispatch for the bridge transport.
/// The engine commits its local state independently of delivery: the
/// transport's outcome is never waited for.
pub fn send_ccip_message(
    user: &AccountId,
    asset: &AccountId,
    amount: u64,
    dest_chain: u64,
    receiver: [u8; 32],
) -> (out: OutboundMessage)
    ensures
        out.message@ == (MessageModel {
            user: user@,
            action: action_borrow(),
            asset: asset@,
            amount,
            source_chain: 0,
            dest_chain,
        }),
        out.receiver == receiver,
{
    let action = borrow_action_bytes();
    let message = CrossChainMessage {
        user: *user,
        action,
        asset: *asset,
        amount,
        source_chain: 0,
        dest_chain,
    };
    proof {
        assert(message@ =~= (MessageModel {
            user: user@,
            action: action_borrow(),
            asset: asset@,
            amount,
            source_chain: 0,
            dest_chain,
        }));
    }
    OutboundMessage { message, receiver }
}

/// Builds the "repay" action tag.
pub fn repay_action_bytes() -> (v: Vec<u8>)
    ensures
        v@ == action_repay(),
{
    let mut v: Vec<u8> = Vec::new();
    v.push(114u8);
    v.push(101u8);
    v.push(112u8);
    v.push(97u8);
    v.push(121u8);
    proof {
        assert(v@ =~= action_repay());
    }
    v
}

/// The wire form of a message, in a stable, versionless schema: the user
/// (32 bytes), the action's length (u32, little-endian) and bytes, the asset
/// (32 bytes), then amount, source chain and destination chain (u64 each,
/// little-endian).
pub open spec fn encode_model(m: MessageModel) -> Seq<u8> {
    m.user + spec_u32_to_le_bytes(m.action.len() as u32) + m.action + m.asset
        + spec_u64_to_le_bytes(m.amount) + spec_u64_to_le_bytes(m.source_chain)
        + spec_u64_to_le_bytes(m.dest_chain)
}

/// A model the wire schema can carry: two 32-byte identities and an action
/// whose length fits its length field.
pub open spec fn valid_model(m: MessageModel) -> bool {
    m.user.len() == 32 && m.asset.len() == 32 && m.action.len() <= u32::MAX
}

/// The parse of a byte string under the wire schema: `None` unless the bytes
/// are exactly one whole message.
pub open spec fn parse_message(b: Seq<u8>) -> Option<MessageModel> {
    if b.len() < 36 {
        None
    } else {
        let alen = spec_u32_from_le_bytes(b.subrange(32, 36)) as int;
        if b.len() != 92 + alen {
            None
        } else {
            Some(
                MessageModel {
                    user: b.subrange(0, 32),
                    action: b.subrange(36, 36 + alen),
                    asset: b.subrange(36 + alen, 68 + alen),
                    amount: spec_u64_from_le_bytes(b.subrange(68 + alen, 76 + alen)),
                    source_chain: spec_u64_from_le_bytes(b.subrange(76 + alen, 84 + alen)),
                    dest_chain: spec_u64_from_le_bytes(b.subrange(84 + alen, 92 + alen)),
                },
            )
        }
    }
}

/// Decoding inverts encoding: every message the schema can carry comes back
/// from its own wire form unchanged.
pub proof fn lemma_message_round_trip(m: MessageModel)
    requires
        valid_model(m),
    ensures
        parse_message(encode_model(m)) == Some(m),
{
    lemma_auto_spec_u32_to_from_le_bytes();
    lemma_auto_spec_u64_to_from_le_bytes();
    let b = encode_model(m);
    let alen = m.action.len() as int;
    assert(b.len() == 92 + alen);
    assert(b.subrange(32, 36) =~= spec_u32_to_le_bytes(m.action.len() as u32));
    assert(spec_u32_from_le_bytes(b.subrange(32, 36)) as int == alen);
    assert(b.subrange(0, 32) =~= m.user);
    assert(b.subrange(36, 36 + alen) =~= m.action);
    assert(b.subrange(36 + alen, 68 + alen) =~= m.asset);
    assert(b.subrange(68 + alen, 76 + alen) =~= spec_u64_to_le_bytes(m.amount));
    assert(b.subrange(76 + alen, 84 + alen) =~= spec_u64_to_le_bytes(m.source_chain));
    assert(b.subrange(84 + alen, 92 + alen) =~= spec_u64_to_le_bytes(m.dest_chain));
    assert(parse_message(b) == Some(m));
}

/// Parsing accepts nothing but exact wire forms: whenever a parse succeeds,
/// the message it yields is one the schema can carry, and its encoding is the
/// parsed byte string itself. With `lemma_message_round_trip` this makes the
/// codec a bijection between carried messages and their wire forms.
pub proof fn lemma_parse_exact(b: Seq<u8>)
    ensures
        parse_message(b) matches Some(m) ==> valid_model(m) && encode_model(m) == b,
{
    lemma_auto_spec_u32_to_from_le_bytes();
    lemma_auto_spec_u64_to_from_le_bytes();
    if b.len() >= 36 {
        let alen = spec_u32_from_le_bytes(b.subrange(32, 36)) as int;
        if b.len() == 92 + alen {
            let m = MessageModel {
                user: b.subrange(0, 32),
                action: b.subrange(36, 36 + alen),
                asset: b.subrange(36 + alen, 68 + alen),
                amount: spec_u64_from_le_bytes(b.subrange(68 + alen, 76 + alen)),
                source_chain: spec_u64_from_le_bytes(b.subrange(76 + alen, 84 + alen)),
                dest_chain: spec_u64_from_le_bytes(b.subrange(84 + alen, 92 + alen)),
            };
            assert(parse_message(b) == Some(m));
            assert(valid_model(m));
            assert(spec_u32_to_le_bytes(m.action.len() as u32) =~= b.subrange(32, 36));
            assert(spec_u64_to_le_bytes(m.amount) =~= b.subrange(68 + alen, 76 + alen));
            assert(spec_u64_to_le_bytes(m.source_chain) =~= b.subrange(76 + alen, 84 + alen));
            assert(spec_u64_to_le_bytes(m.dest_chain) =~= b.subrange(84 + alen, 92 + alen));
            assert(encode_model(m) =~= b);
        }
    }
}

/// Appends a byte slice to a buffer.
fn push_slice(out: &mut Vec<u8>, s: &[u8])
    ensures
        final(out)@ == old(out)@ + s@,
{
    let mut i: usize = 0;
    while i < s.len()
        invariant
            i <= s@.len(),
            out@ == old(out)@ + s@.subrange(0, i as int),
        decreases s@.len() - i,
    {
        let b = s[i];
        out.push(b);
        proof {
            assert(out@ =~= old(out)@ + s@.subrange(0, i + 1));
        }
        i = i + 1;
    }
    proof {
        assert(old(out)@ + s@.subrange(0, s@.len() as int) =~= old(out)@ + s@);
    }
}

/// Encodes a message into its wire form.
pub fn encode_message(m: &CrossChainMessage) -> (out: Vec<u8>)
    requires
        m.action@.len() <= u32::MAX,
    ensures
        out@ == encode_model(m@),
{
    let mut out: Vec<u8> = Vec::new();
    push_slice(&mut out, m.user.as_slice());
    let len_bytes = u32_to_le_bytes(m.action.len() as u32);
    push_slice(&mut out, len_bytes.as_slice());
    push_slice(&mut out, m.action.as_slice());
    push_slice(&mut out, m.asset.as_slice());
    let amount_bytes = u64_to_le_bytes(m.amount);
    push_slice(&mut out, amount_bytes.as_slice());
    let source_bytes = u64_to_le_bytes(m.source_chain);
    push_slice(&mut out, source_bytes.as_slice());
    let dest_bytes = u64_to_le_bytes(m.dest_chain);
    push_slice(&mut out, dest_bytes.as_slice());
    proof {
        assert(out@ =~= encode_model(m@));
    }
    out
}

/// Decodes a wire payload; fails with `CrossChainFailed` exactly when the
/// bytes are not one whole message of the schema.
pub fn decode_message(data: &[u8]) -> (r: Result<CrossChainMessage, ErrorCode>)
    ensures
        match r {
            Ok(msg) => parse_message(data@) == Some(msg@),
            Err(e) => e == ErrorCode::CrossChainFailed && parse_message(data@) is None,
        },
{
    if data.len() < 36 {
        return Err(ErrorCode::CrossChainFailed);
    }
    let alen_bytes = slice_subrange(data, 32, 36);
    let alen: usize = u32_from_le_bytes(alen_bytes) as usize;
    if data.len() < 92 {
        return Err(ErrorCode::CrossChainFailed);
    }
    if data.len() - 92 != alen {
        return Err(ErrorCode::CrossChainFailed);
    }
    let mut user: AccountId = [0u8; 32];
    let mut i: usize = 0;
    while i < 32
        invariant
            i <= 32,
            data@.len() >= 92,
            forall|j: int| 0 <= j < i ==> user@[j] == data@[j],
        decreases 32 - i,
    {
        user[i] = data[i];
        i = i + 1;
    }
    let action = slice_to_vec(slice_subrange(data, 36, 36 + alen));
    let mut asset: AccountId = [0u8; 32];
    let mut k: usize = 0;
    while k < 32
        invariant
            k <= 32,
            alen == data@.len() - 92,
            alen <= usize::MAX - 92,
            forall|j: int| 0 <= j < k ==> asset@[j] == data@[36 + alen + j],
        decreases 32 - k,
    {
        asset[k] = data[36 + alen + k];
        k = k + 1;
    }
    let amount = u64_from_le_bytes(slice_subrange(data, 68 + alen, 76 + alen));
    let source_chain = u64_from_le_bytes(slice_subrange(data, 76 + alen, 84 + alen));
    let dest_chain = u64_from_le_bytes(slice_subrange(data, 84 + alen, 92 + alen));
    let msg = CrossChainMessage { user, action, asset, amount, source_chain, dest_chain };
    proof {
        assert(user@ =~= data@.subrange(0, 32));
        assert(asset@ =~= data@.subrange(36 + alen as int, 68 + alen as int));
        assert(msg@ =~= parse_message(data@).unwrap());
    }
    Ok(msg)
}

/// Compares two byte strings.
pub fn bytes_eq(a: &[u8], b: &[u8]) -> (r: bool)
    ensures
        r == (a@ == b@),
{
    if a.len() != b.len() {
        return false;
    }
    let mut i: usize = 0;
    while i < a.len()
        invariant
            i <= a@.len(),
            a@.len() == b@.len(),
            forall|j: int| 0 <= j < i ==> a@[j] == b@[j],
        decreases a@.len() - i,
    {
        if a[i] != b[i] {
            return false;
        }
        i = i + 1;
    }
    proof {
        assert(a@ =~= b@);
    }
    true
}

/// Mints `amount` of the user's synthetic claim token: the local record of a
/// borrow that settled on a remote chain. Fails with `InvalidAmount` exactly
/// when the balance would overflow, and then changes nothing. The token
/// transfer itself is the custody collaborator's work.
pub fn mint_synthetic_asset(synthetic_balance: &mut u64, amount: u64) -> (r: Result<
    (),
    ErrorCode,
>)
    ensures
        match r {
            Ok(()) => {
                &&& old(synthetic_balance) + amount <= u64::MAX
                &&& *final(synthetic_balance) == *old(synthetic_balance) + amount
            },
            Err(e) => {
                &&& e == ErrorCode::InvalidAmount
                &&& old(synthetic_balance) + amount > u64::MAX
                &&& *final(synthetic_balance) == *old(synthetic_balance)
            },
        },
{
    match synthetic_balance.checked_add(amount) {
        Some(new_balance) => {
            *synthetic_balance = new_balance;
            Ok(())
        },
        None => Err(ErrorCode::InvalidAmount),
    }
}

/// Burns `amount` of the user's synthetic claim token when a repay settles.
/// Fails with `InvalidAmount` exactly when more would be burned than the
/// balance holds, and then changes nothing.
pub fn burn_synthetic_asset(synthetic_balance: &mut u64, amount: u64) -> (r: Result<
    (),
    ErrorCode,
>)
    ensures
        match r {
            Ok(()) => {
                &&& amount <= *old(synthetic_balance)
                &&& *final(synthetic_balance) == *old(synthetic_balance) - amount
            },
            Err(e) => {
                &&& e == ErrorCode::InvalidAmount
                &&& amount > *old(synthetic_balance)
                &&& *final(synthetic_balance) == *old(synthetic_balance)
            },
        },
{
    if amount > *synthetic_balance {
        return Err(ErrorCode::InvalidAmount);
    }
    *synthetic_balance = *synthetic_balance - amount;
    Ok(())
}

/// How an inbound receive ends: the error it fails with, or `None` for
/// success.
pub open spec fn receive_outcome(pool: Pool, data: Seq<u8>, balance: u64) -> Option<ErrorCode> {
    if pool.is_paused {
        Some(ErrorCode::NotAuthorized)
    } else {
        match parse_message(data) {
            None => Some(ErrorCode::CrossChainFailed),
            Some(m) => {
                if m.action == action_borrow() {
                    if balance + m.amount > u64::MAX {
                        Some(ErrorCode::InvalidAmount)
                    } else {
                        None
                    }
                } else if m.action == action_repay() {
                    if m.amount > balance {
                        Some(ErrorCode::InvalidAmount)
                    } else {
                        None
                    }
                } else {
                    Some(ErrorCode::CrossChainFailed)
                }
            },
        }
    }
}

/// Consumes one inbound cross-chain payload. A "borrow" settlement mints the
/// decoded amount of the user's synthetic claim; a "repay" settlement burns
/// it; an undecodable payload or any other action fails with
/// `CrossChainFailed`. On failure no synthetic balance changes.
pub fn ccip_receive(pool: &Pool, data: &[u8], synthetic_balance: &mut u64) -> (r: Result<
    CrossChainMessageReceived,
    ErrorCode,
>)
    ensures
        match r {
            Ok(ev) => {
                &&& receive_outcome(*pool, data@, *old(synthetic_balance)) is None
                &&& (parse_message(data@) matches Some(m) && {
                    &&& ev.user@ == m.user
                    &&& ev.action@ == m.action
                    &&& ev.amount == m.amount
                    &&& ev.source_chain == m.source_chain
                    &&& (m.action == action_borrow() ==> *final(synthetic_balance) == *old(
                        synthetic_balance,
                    ) + m.amount)
                    &&& (m.action == action_repay() ==> *final(synthetic_balance) == *old(
                        synthetic_balance,
                    ) - m.amount)
                })
            },
            Err(e) => {
                &&& receive_outcome(*pool, data@, *old(synthetic_balance)) == Some(e)
                &&& *final(synthetic_balance) == *old(synthetic_balance)
            },
        },
{
    if pool.is_paused {
        return Err(ErrorCode::NotAuthorized);
    }
    let message = match decode_message(data) {
        Ok(m) => m,
        Err(e) => {
            return Err(e);
        },
    };
    let borrow_tag = borrow_action_bytes();
    let repay_tag = repay_action_bytes();
    if bytes_eq(message.action.as_slice(), borrow_tag.as_slice()) {
        match mint_synthetic_asset(synthetic_balance, message.amount) {
            Ok(()) => {},
            Err(e) => {
                return Err(e);
            },
        }
    } else if bytes_eq(message.action.as_slice(), repay_tag.as_slice()) {
        match burn_synthetic_asset(synthetic_balance, message.amount) {
            Ok(()) => {},
            Err(e) => {
                return Err(e);
            },
        }
    } else {
        return Err(ErrorCode::CrossChainFailed);
    }
    Ok(
        CrossChainMessageReceived {
            user: message.user,
            action: message.action,
            amount: message.amount,
            source_chain: message.source_chain,
        },
    )
}

} // verus!

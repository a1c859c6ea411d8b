//! Sender keys: what a group member hands out so that others can read its messages.

use vstd::prelude::*;
use wacore::libsignal::protocol::SenderKeyDistributionMessage;
use crate::jid::{Jid, JidView, make_sender_key_name, sender_key_name};

verus! {

/// The length of a chain key, in bytes.
pub const CHAIN_KEY_LEN: usize = 32;

/// The length of a public key without its type byte.
pub const PUBLIC_KEY_LEN: usize = 32;

/// The fields of a distribution message that was sent without the version byte in front.
pub struct BareDistribution {
    pub id: Option<u32>,
    pub iteration: Option<u32>,
    pub chain_key: Option<Vec<u8>>,
    pub signing_key: Option<Vec<u8>>,
}

/// What a [`BareDistribution`] holds, as mathematics.
pub struct BareView {
    pub id: Option<u32>,
    pub iteration: Option<u32>,
    pub chain_key: Option<Seq<u8>>,
    pub signing_key: Option<Seq<u8>>,
}

/// What bytes that may be missing hold.
pub open spec fn opt_bytes(bytes: Option<Vec<u8>>) -> Option<Seq<u8>> {
    match bytes {
        Some(b) => Some(b@),
        None => None,
    }
}

impl View for BareDistribution {
    type V = BareView;

    open spec fn view(&self) -> BareView {
        BareView {
            id: self.id,
            iteration: self.iteration,
            chain_key: opt_bytes(self.chain_key),
            signing_key: opt_bytes(self.signing_key),
        }
    }
}

/// Whether `SenderKeyDistributionMessage::try_from` of libsignal accepts the bytes.
pub uninterp spec fn is_distribution(bytes: Seq<u8>) -> bool;

/// The fields that `prost` finds in bytes that encode a
/// `waproto::whatsapp::SenderKeyDistributionMessage`; `None` where they encode none.
pub uninterp spec fn bare_fields(bytes: Seq<u8>) -> Option<BareView>;

/// The encoding that `SenderKeyDistributionMessage::new` of libsignal gives a distribution
/// message: version, chain identifier, iteration, chain key and public key without type byte.
pub uninterp spec fn distribution_bytes(
    version: u8,
    id: u32,
    iteration: u32,
    chain_key: Seq<u8>,
    signing_key: Seq<u8>,
) -> Seq<u8>;

/// Calls `SenderKeyDistributionMessage::try_from`, and tells whether it accepts the bytes: that
/// depends on the bytes alone, and is named. It never accepts fewer than 65 bytes, and only
/// those whose first byte holds version three in its upper half.
#[verifier::external_body]
fn parses_as_distribution(bytes: &[u8]) -> (r: bool)
    ensures
        r == is_distribution(bytes@),
        r ==> bytes@.len() >= 65 && bytes@[0] >> 4 == 3,
{
    SenderKeyDistributionMessage::try_from(bytes).is_ok()
}

/// Calls `<waproto::whatsapp::SenderKeyDistributionMessage as prost::Message>::decode`. The
/// fields depend on the bytes alone, and are named.
#[verifier::external_body]
fn decode_bare(bytes: &[u8]) -> (r: Option<BareDistribution>)
    ensures
        match r {
            Some(fields) => bare_fields(bytes@) == Some(fields@),
            None => bare_fields(bytes@) is None,
        },
{
    let m: waproto::whatsapp::SenderKeyDistributionMessage = prost::Message::decode(bytes).ok()?;
    Some(BareDistribution {
        id: m.id,
        iteration: m.iteration,
        chain_key: m.chain_key,
        signing_key: m.signing_key,
    })
}

/// Calls `PublicKey::from_djb_public_key_bytes` of libsignal, and tells whether it accepts the
/// bytes: it takes exactly 32 of them.
#[verifier::external_body]
fn is_public_key(bytes: &[u8]) -> (r: bool)
    ensures
        r == (bytes@.len() == PUBLIC_KEY_LEN),
{
    wacore::libsignal::protocol::PublicKey::from_djb_public_key_bytes(bytes).is_ok()
}

/// Calls `SenderKeyDistributionMessage::new` of libsignal with a chain key and a public key of
/// 32 bytes each, which never fails. The encoding of the new message depends on the arguments
/// alone, and is named; with version three, `SenderKeyDistributionMessage::try_from` accepts it.
#[verifier::external_body]
fn new_distribution(version: u8, id: u32, iteration: u32, chain_key: &[u8], signing_key: &[u8]) -> (r:
    Option<Vec<u8>>)
    requires
        chain_key@.len() == CHAIN_KEY_LEN,
        signing_key@.len() == PUBLIC_KEY_LEN,
    ensures
        r is Some,
        r->0@ == distribution_bytes(version, id, iteration, chain_key@, signing_key@),
        version == 3 ==> is_distribution(r->0@),
{
    let key = wacore::libsignal::protocol::PublicKey::from_djb_public_key_bytes(signing_key).ok()?;
    let chain = chain_key.try_into().ok()?;
    let m = SenderKeyDistributionMessage::new(version, id, iteration, chain, key).ok()?;
    Some(m.serialized().to_vec())
}

/// The version that a distribution message is written with.
pub const SENDERKEY_MESSAGE_CURRENT_VERSION: u8 = 3;

/// Why a distribution message is of no use.
#[derive(Clone, Copy, Debug, PartialEq, Eq, Structural)]
pub enum DistributionError {
    /// The bytes are a distribution message in neither form.
    Malformed,
    /// One of the four fields is missing.
    MissingField,
    /// The chain key is not 32 bytes long, but this many.
    ChainKeyLength(usize),
    /// The signing key is not a public key.
    SigningKey,
}

/// The distribution message that some bytes stand for: as they are, or, where only the bare
/// fields were sent, put together from these.
pub open spec fn distribution_of(bytes: Seq<u8>) -> Result<Seq<u8>, DistributionError> {
    if is_distribution(bytes) {
        Ok(bytes)
    } else {
        match bare_fields(bytes) {
            None => Err(DistributionError::Malformed),
            Some(fields) => from_bare(fields),
        }
    }
}

/// The distribution message that bare fields stand for.
pub open spec fn from_bare(fields: BareView) -> Result<Seq<u8>, DistributionError> {
    match (fields.signing_key, fields.id, fields.iteration, fields.chain_key) {
        (Some(signing_key), Some(id), Some(iteration), Some(chain_key)) => {
            if chain_key.len() != CHAIN_KEY_LEN {
                Err(DistributionError::ChainKeyLength(chain_key.len() as usize))
            } else if signing_key.len() != PUBLIC_KEY_LEN {
                Err(DistributionError::SigningKey)
            } else {
                Ok(
                    distribution_bytes(
                        SENDERKEY_MESSAGE_CURRENT_VERSION,
                        id,
                        iteration,
                        chain_key,
                        signing_key,
                    ),
                )
            }
        },
        _ => Err(DistributionError::MissingField),
    }
}

/// Whether a result is the one that the model gives.
pub open spec fn same_bytes(
    r: Result<Vec<u8>, DistributionError>,
    model: Result<Seq<u8>, DistributionError>,
) -> bool {
    match (r, model) {
        (Ok(bytes), Ok(expected)) => bytes@ == expected,
        (Err(e), Err(expected)) => e == expected,
        _ => false,
    }
}

/// Puts a distribution message together from bare fields.
pub fn distribution_from_bare(fields: &BareDistribution) -> (r: Result<Vec<u8>, DistributionError>)
    ensures
        same_bytes(r, from_bare(fields@)),
        r matches Ok(message) ==> is_distribution(message@),
{
    match (&fields.signing_key, fields.id, fields.iteration, &fields.chain_key) {
        (Some(signing_key), Some(id), Some(iteration), Some(chain_key)) => {
            if chain_key.len() != CHAIN_KEY_LEN {
                return Err(DistributionError::ChainKeyLength(chain_key.len()));
            }
            if !is_public_key(signing_key.as_slice()) {
                return Err(DistributionError::SigningKey);
            }
            match new_distribution(
                SENDERKEY_MESSAGE_CURRENT_VERSION,
                id,
                iteration,
                chain_key.as_slice(),
                signing_key.as_slice(),
            ) {
                Some(bytes) => Ok(bytes),
                None => Err(DistributionError::SigningKey),
            }
        },
        _ => Err(DistributionError::MissingField),
    }
}

/// Reads a distribution message in either form. What comes out is in the full form, so that
/// reading it again gives it back.
pub fn read_distribution(bytes: &Vec<u8>) -> (r: Result<Vec<u8>, DistributionError>)
    ensures
        same_bytes(r, distribution_of(bytes@)),
        r matches Ok(message) ==> is_distribution(message@) && distribution_of(message@) == Ok::<
            Seq<u8>,
            DistributionError,
        >(message@),
{
    if parses_as_distribution(bytes.as_slice()) {
        let copy = bytes.clone();
        assert(copy@ =~= bytes@);
        return Ok(copy);
    }
    match decode_bare(bytes.as_slice()) {
        Some(fields) => distribution_from_bare(&fields),
        None => Err(DistributionError::Malformed),
    }
}

/// A sender key that is to be stored.
pub struct SenderKeyUpdate {
    /// The name to keep it under.
    pub name: String,
    /// The distribution message.
    pub message: Vec<u8>,
}

/// Takes in a distribution message that `sender` handed out in `group`: the key is kept for
/// the sender's account as a whole, whatever device sent it.
pub fn handle_sender_key_distribution_message(group: &Jid, sender: &Jid, bytes: &Vec<u8>) -> (r:
    Result<SenderKeyUpdate, DistributionError>)
    ensures
        match (r, distribution_of(bytes@)) {
            (Ok(update), Ok(message)) => update.message@ == message && is_distribution(message)
                && update.name@ == sender_key_name(group@, sender@.non_ad()),
            (Err(e), Err(expected)) => e == expected,
            _ => false,
        },
{
    match read_distribution(bytes) {
        Ok(message) => {
            let bare = sender.to_non_ad();
            Ok(SenderKeyUpdate { name: make_sender_key_name(group, &bare), message })
        },
        Err(e) => Err(e),
    }
}

/// The devices of an account share one sender key in a group: the name under which a key is
/// kept when it is handed out is the name under which it is looked up when a message comes,
/// whichever of the sender's devices either came from.
pub proof fn devices_share_sender_key(group: JidView, a: JidView, b: JidView)
    requires
        a.user == b.user,
        a.server == b.server,
    ensures
        sender_key_name(group, a.non_ad()) == sender_key_name(group, b.non_ad()),
{
}

/// A distribution message is taken as it is where it can be read. Otherwise its bare fields are
/// put together, which takes all four of them, a chain key of the right length and a public key.
/// Each thing that is wrong is said as such.
pub proof fn distributions_are_put_together(bytes: Seq<u8>)
    ensures
        is_distribution(bytes) ==> distribution_of(bytes) == Ok::<Seq<u8>, DistributionError>(
            bytes,
        ),
        !is_distribution(bytes) && bare_fields(bytes) is None ==> distribution_of(bytes) == Err::<
            Seq<u8>,
            DistributionError,
        >(DistributionError::Malformed),
        !is_distribution(bytes) && bare_fields(bytes) is Some ==> ({
            let fields = bare_fields(bytes)->0;
            match distribution_of(bytes) {
                Ok(message) => {
                    &&& fields.id is Some && fields.iteration is Some
                    &&& fields.chain_key is Some && fields.chain_key->0.len() == 32
                    &&& fields.signing_key is Some && fields.signing_key->0.len() == 32
                    &&& message == distribution_bytes(
                        3,
                        fields.id->0,
                        fields.iteration->0,
                        fields.chain_key->0,
                        fields.signing_key->0,
                    )
                },
                Err(DistributionError::MissingField) => fields.id is None || fields.iteration
                    is None || fields.chain_key is None || fields.signing_key is None,
                Err(DistributionError::ChainKeyLength(length)) => {
                    &&& fields.id is Some && fields.iteration is Some && fields.signing_key is Some
                    &&& fields.chain_key is Some && fields.chain_key->0.len() != 32
                    &&& length == fields.chain_key->0.len() as usize
                },
                Err(DistributionError::SigningKey) => {
                    &&& fields.id is Some && fields.iteration is Some
                    &&& fields.chain_key is Some && fields.chain_key->0.len() == 32
                    &&& fields.signing_key is Some && fields.signing_key->0.len() != 32
                },
                Err(DistributionError::Malformed) => false,
            }
        }),
{
}

/// Fields are looked at as they are; missing bytes stay missing.
pub proof fn fields_are_looked_at_whole(bare: BareDistribution, bytes: Vec<u8>)
    ensures
        bare@.id == bare.id,
        bare@.iteration == bare.iteration,
        bare@.chain_key == opt_bytes(bare.chain_key),
        bare@.signing_key == opt_bytes(bare.signing_key),
        opt_bytes(Some(bytes)) == Some(bytes@),
        opt_bytes(None) is None,
{
}

} // verus!

//! Tickets and content hashes, encoded and decoded by iroh-blobs.
//!
//! A ticket names the peer that serves a bundle, the bundle's hash and its format.
//! This library never looks inside one: it hands the text to iroh-blobs and maps
//! the outcome to its own errors.

use vstd::prelude::*;
use vstd::string::StringExecFns;

use iroh::EndpointAddr;
use iroh_blobs::ticket::BlobTicket;
use iroh_blobs::BlobFormat;

use crate::error::GinsengError;

verus! {

#[verifier::external_type_specification]
#[verifier::external_body]
pub struct ExBlobTicket(BlobTicket);

#[verifier::external_type_specification]
#[verifier::external_body]
pub struct ExHash(iroh_blobs::Hash);

#[verifier::external_type_specification]
#[verifier::external_body]
pub struct ExBlobFormat(BlobFormat);

#[verifier::external_type_specification]
#[verifier::external_body]
pub struct ExEndpointAddr(EndpointAddr);

/// Whether `BlobTicket`'s `FromStr` accepts the text.
pub uninterp spec fn ticket_text_decodes(s: Seq<char>) -> bool;

/// Whether `Hash`'s `FromStr` accepts the text.
pub uninterp spec fn hash_text_decodes(s: Seq<char>) -> bool;

/// The text starts with the ticket kind "blob".
pub open spec fn has_ticket_prefix(s: Seq<char>) -> bool {
    s.len() >= 4 && s[0] == 'b' && s[1] == 'l' && s[2] == 'o' && s[3] == 'b'
}

/// Relies on `FromStr` for `BlobTicket`, which is iroh-tickets' `decode_string`: the
/// text must be the kind "blob" followed by base32 of an encoded ticket. The error is
/// passed on as its text.
#[verifier::external_body]
fn decode_ticket(text: &str) -> (r: Result<BlobTicket, String>)
    ensures
        r is Ok <==> ticket_text_decodes(text@),
        r is Ok ==> has_ticket_prefix(text@),
{
    text.parse::<BlobTicket>().map_err(|e| e.to_string())
}

/// Relies on `BlobTicket::new` and `Display` for `BlobTicket`, which is iroh-tickets'
/// `encode_string`: the kind "blob" followed by lowercase base32 of the encoded ticket.
#[verifier::external_body]
fn encode_ticket(addr: EndpointAddr, hash: iroh_blobs::Hash, format: BlobFormat) -> (r: String)
    ensures
        has_ticket_prefix(r@),
{
    BlobTicket::new(addr, hash, format).to_string()
}

/// Relies on `FromStr` for `Hash`: 64 hex digits, or base32 text of 32 bytes. The error
/// is passed on as its text. Any other length makes data-encoding's `decode_mut` panic,
/// so only 52 or 64 bytes of text are handed over.
#[verifier::external_body]
fn decode_hash(text: &str) -> (r: Result<iroh_blobs::Hash, String>)
    requires
        text.len() == 52 || text.len() == 64,
    ensures
        r is Ok <==> hash_text_decodes(text@),
{
    text.parse::<iroh_blobs::Hash>().map_err(|e| e.to_string())
}

/// The message of a ticket that could not be read, with the decoder's explanation.
pub open spec fn ticket_error_message(detail: Seq<char>) -> Seq<char> {
    "Failed to parse ticket: "@ + detail
}

/// Reads a ticket. Text that does not start with the ticket kind is always refused.
pub fn parse_ticket(ticket: &str) -> (r: Result<BlobTicket, GinsengError>)
    ensures
        r is Ok <==> ticket_text_decodes(ticket@),
        !has_ticket_prefix(ticket@) ==> r is Err,
        r matches Err(e) ==> exists|detail: Seq<char>| #[trigger] e.is_ticket_format(ticket_error_message(detail)),
{
    match decode_ticket(ticket) {
        Ok(t) => Ok(t),
        Err(detail) => {
            let mut message = String::from_str("Failed to parse ticket: ");
            message.append(detail.as_str());
            let e = GinsengError::TicketFormat(message);
            assert(e.is_ticket_format(ticket_error_message(detail@)));
            Err(e)
        },
    }
}

/// Writes the ticket that lets a peer fetch the bundle with `hash` and `format` from
/// the node at `addr`.
pub fn create_share_ticket(addr: EndpointAddr, hash: iroh_blobs::Hash, format: BlobFormat) -> (r: String)
    ensures
        has_ticket_prefix(r@),
{
    encode_ticket(addr, hash, format)
}

/// The message of a content hash that could not be read.
pub open spec fn hash_error_message(detail: Seq<char>) -> Seq<char> {
    "Invalid hash: "@ + detail
}

/// The explanation given for a hash text of the wrong length.
pub open spec fn hash_length_detail() -> Seq<char> {
    "expected 64 hex digits or 52 base32 characters"@
}

/// Reads the content hash of a manifest entry: 64 hex digits or 52 base32 characters.
pub fn parse_file_hash(text: &str) -> (r: Result<iroh_blobs::Hash, GinsengError>)
    ensures
        (text.len() == 52 || text.len() == 64) ==> (r is Ok <==> hash_text_decodes(text@)),
        !(text.len() == 52 || text.len() == 64) ==> (r matches Err(e) && e.is_serialization(
            hash_error_message(hash_length_detail()),
        )),
        r matches Err(e) ==> exists|detail: Seq<char>| #[trigger] e.is_serialization(hash_error_message(detail)),
{
    let length = text.len();
    if length != 52 && length != 64 {
        let mut message = String::from_str("Invalid hash: ");
        message.append("expected 64 hex digits or 52 base32 characters");
        let e = GinsengError::Serialization(message);
        assert(e.is_serialization(hash_error_message(hash_length_detail())));
        return Err(e);
    }
    match decode_hash(text) {
        Ok(h) => Ok(h),
        Err(detail) => {
            let mut message = String::from_str("Invalid hash: ");
            message.append(detail.as_str());
            let e = GinsengError::Serialization(message);
            assert(e.is_serialization(hash_error_message(detail@)));
            Err(e)
        },
    }
}

} // verus!

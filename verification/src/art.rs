//! The album art pipeline: which addresses are asked for, which answers are
//! taken, and how the bytes of an answer become an image.
//!
//! The request itself goes over the network and is made outside this
//! library, and so is the decoding of the body, which the caller hands in
//! as a function. Here stands what is decided before the request (is the
//! address one that can be asked, and what is offered to the server),
//! between its head and its body (is the answer one that is worth
//! downloading), and after it (is the body decoded at all, and is what the
//! decoder made an image).

use crate::raster::{byte_len, Raster, RasterModel};
use vstd::prelude::*;
use vstd::string::StringSliceAdditionalSpecFns;

verus! {

/// The largest body that is downloaded: 4 MiB, enough for the raw bitmap of
/// a picture of 1024 by 1024 pixels.
pub const MAXIMUM_LENGTH: u64 = 4 * 1024 * 1024;

/// The one status with which an answer is taken: 200 OK.
pub const STATUS_OK: u16 = 200;

/// The value of the `Accept` header of a request: the three formats with
/// their weights, a weight of one being left out.
pub const ACCEPT: &'static str = "image/webp, image/jpeg; q=0.9, image/png; q=0.8";

/// The image formats that are asked for and taken.
#[derive(Clone, Copy, Debug, PartialEq, Eq, Structural)]
pub enum ArtFormat {
    Webp,
    Jpeg,
    Png,
}

/// Why no art came of an address.
#[derive(Clone, Copy, Debug, PartialEq, Eq, Structural)]
pub enum ArtError {
    /// The address is no URI.
    Address,
    /// The request could not be made or got no answer.
    Request,
    /// The answer has this status, which is not 200.
    Status(u16),
    /// The answer announces a body of this many bytes, more than
    /// [`MAXIMUM_LENGTH`].
    TooLarge(u64),
    /// The answer names no content type, or one that is none of the formats
    /// that are taken.
    UnsupportedType,
    /// The body could not be downloaded.
    Download,
    /// The body is no image of the announced format.
    Decode,
}

/// The head of an answer: what is known of it before its body is read.
#[derive(Debug, PartialEq, Eq)]
pub struct ResponseHead {
    /// The status code.
    pub status: u16,
    /// The value of the `Content-Type` header, if there is one.
    pub content_type: Option<String>,
    /// The value of the `Content-Length` header, if there is one.
    pub content_length: Option<u64>,
}

/// What is sent to the server: the address, the formats in the order of
/// preference, each with its weight in thousandths, and the `Accept` header
/// that says the same.
#[derive(Debug, PartialEq, Eq)]
pub struct ArtRequest {
    pub address: String,
    pub accept: Vec<(ArtFormat, u16)>,
    pub accept_header: String,
}

/// Whether `<hyper::Uri as FromStr>::from_str` takes a text as a URI.
pub uninterp spec fn uri_parses(address: Seq<char>) -> bool;

/// What `<mime::Mime as FromStr>::from_str` makes of the value of a
/// `Content-Type` header: nothing where it is no media type, else the type
/// and the subtype as `Mime::type_` and `Mime::subtype` give them.
pub uninterp spec fn parsed_media_type(header: Seq<char>) -> Option<(Seq<char>, Seq<char>)>;

/// Asks `hyper::Uri`'s parser whether a text is a URI. The answer is a
/// function of the text alone; the contract names it and claims no more.
#[verifier::external_body]
fn is_uri(address: &str) -> (ok: bool)
    ensures
        ok == uri_parses(address@),
{
    address.parse::<hyper::Uri>().is_ok()
}

/// Parses the value of a `Content-Type` header with `mime::Mime`'s parser and
/// hands out `Mime::type_` and `Mime::subtype` as strings. The contract
/// names the result and claims no more.
#[verifier::external_body]
fn media_type(header: &str) -> (parsed: Option<(String, String)>)
    ensures
        match parsed {
            Some((kind, subtype)) => parsed_media_type(header@) == Some((kind@, subtype@)),
            None => parsed_media_type(header@).is_none(),
        },
{
    match header.parse::<mime::Mime>() {
        Ok(mime) => Some((mime.type_().as_str().to_owned(), mime.subtype().as_str().to_owned())),
        Err(_) => None,
    }
}

/// The formats that are offered to the server, most wanted first.
pub open spec fn preferences() -> Seq<(ArtFormat, u16)> {
    seq![(ArtFormat::Webp, 1000u16), (ArtFormat::Jpeg, 900u16), (ArtFormat::Png, 800u16)]
}

/// The format that a media type stands for: `image/webp`, `image/jpeg` and
/// `image/png` stand for one, every other type for none.
pub open spec fn format_of(kind: Seq<char>, subtype: Seq<char>) -> Option<ArtFormat> {
    if kind != "image"@ {
        None
    } else if subtype == "webp"@ {
        Some(ArtFormat::Webp)
    } else if subtype == "jpeg"@ {
        Some(ArtFormat::Jpeg)
    } else if subtype == "png"@ {
        Some(ArtFormat::Png)
    } else {
        None
    }
}

/// The format that a parsed `Content-Type` stands for.
pub open spec fn format_of_parsed(parsed: Option<(Seq<char>, Seq<char>)>) -> Option<ArtFormat> {
    match parsed {
        Some((kind, subtype)) => format_of(kind, subtype),
        None => None,
    }
}

/// The format that the `Content-Type` header of an answer stands for. An
/// answer without the header stands for none.
pub open spec fn format_of_header(content_type: Option<Seq<char>>) -> Option<ArtFormat> {
    match content_type {
        Some(header) => format_of_parsed(parsed_media_type(header)),
        None => None,
    }
}

/// Whether a byte is a decimal digit in ASCII.
pub open spec fn is_digit(byte: u8) -> bool {
    48 <= byte <= 57
}

/// Whether all bytes are decimal digits.
pub open spec fn all_digits(bytes: Seq<u8>) -> bool {
    forall|i: int| 0 <= i < bytes.len() ==> is_digit(#[trigger] bytes[i])
}

/// The number that a run of decimal digits stands for.
pub open spec fn digits_value(digits: Seq<u8>) -> nat
    decreases digits.len(),
{
    if digits.len() == 0 {
        0
    } else {
        digits_value(digits.drop_last()) * 10 + (digits.last() - 48) as nat
    }
}

/// The length that the value of a `Content-Length` header announces: the
/// number that it spells, if it is made of decimal digits alone and has at
/// least one. A number beyond 64 bits counts as the largest of 64 bits, so
/// that it is still known to be too large. Any other value announces
/// nothing.
pub open spec fn announced_length(value: Seq<u8>) -> Option<u64> {
    if value.len() > 0 && all_digits(value) {
        Some(
            if digits_value(value) <= u64::MAX {
                digits_value(value) as u64
            } else {
                u64::MAX
            },
        )
    } else {
        None
    }
}

/// The head of an answer with the given status and headers.
pub open spec fn head_of(
    status: u16,
    content_type: Option<Seq<char>>,
    content_length: Option<Seq<u8>>,
) -> (u16, Option<Seq<char>>, Option<u64>) {
    (
        status,
        content_type,
        match content_length {
            Some(value) => announced_length(value),
            None => None,
        },
    )
}

/// Whether an answer is taken, and as what. It is refused for its status
/// first, then for its announced length, then for its type. An answer that
/// announces no length is not refused for it.
pub open spec fn verdict(status: u16, content_length: Option<u64>, format: Option<ArtFormat>)
    -> Result<ArtFormat, ArtError> {
    if status != STATUS_OK {
        Err(ArtError::Status(status))
    } else if content_length matches Some(length) && length > MAXIMUM_LENGTH {
        Err(ArtError::TooLarge(content_length->0))
    } else {
        match format {
            Some(format) => Ok(format),
            None => Err(ArtError::UnsupportedType),
        }
    }
}

/// The image that a decoder's output makes: the output itself, if it holds
/// four bytes for each pixel.
pub open spec fn image_of(decoded: Option<(u32, u32, Seq<u8>)>) -> Option<RasterModel> {
    match decoded {
        Some((width, height, pixels)) => if pixels.len() == byte_len(width, height) {
            Some(RasterModel { width, height, pixels })
        } else {
            None
        },
        None => None,
    }
}

/// The value of what a decoder hands out.
pub open spec fn decoded_model(decoded: Option<(u32, u32, Vec<u8>)>) -> Option<(u32, u32, Seq<u8>)> {
    match decoded {
        Some((width, height, pixels)) => Some((width, height, pixels@)),
        None => None,
    }
}

/// What comes of a decoder's output: the image that it makes, and a
/// failure to decode where it makes none.
pub open spec fn image_result(decoded: Option<(u32, u32, Seq<u8>)>) -> Result<RasterModel, ArtError> {
    match image_of(decoded) {
        Some(image) => Ok(image),
        None => Err(ArtError::Decode),
    }
}

/// Why an answer is refused before its body is decoded, if it is: because
/// the address is no URI, or because of the answer's head.
pub open spec fn refusal(address: Seq<char>, head: ResponseHead) -> Option<ArtError> {
    if !uri_parses(address) {
        Some(ArtError::Address)
    } else {
        match verdict(
            head.status,
            head.content_length,
            format_of_header(crate::playback::text_of(head.content_type)),
        ) {
            Err(error) => Some(error),
            Ok(_) => None,
        }
    }
}

/// The value of a pipeline outcome.
pub open spec fn outcome_model(outcome: Result<Raster, ArtError>) -> Result<RasterModel, ArtError> {
    match outcome {
        Ok(raster) => Ok(raster@),
        Err(error) => Err(error),
    }
}

fn text_eq(a: &str, b: &str) -> (same: bool)
    ensures
        same == (a@ == b@),
{
    a.to_owned() == b.to_owned()
}

impl ArtFormat {
    /// The format that a media type stands for.
    pub fn from_media_type(kind: &str, subtype: &str) -> (format: Option<ArtFormat>)
        ensures
            format == format_of(kind@, subtype@),
    {
        if !text_eq(kind, "image") {
            None
        } else if text_eq(subtype, "webp") {
            Some(ArtFormat::Webp)
        } else if text_eq(subtype, "jpeg") {
            Some(ArtFormat::Jpeg)
        } else if text_eq(subtype, "png") {
            Some(ArtFormat::Png)
        } else {
            None
        }
    }

    /// The format that the value of a `Content-Type` header stands for.
    pub fn from_content_type(content_type: Option<&str>) -> (format: Option<ArtFormat>)
        ensures
            format == format_of_header(
                match content_type {
                    Some(header) => Some(header@),
                    None => None,
                },
            ),
    {
        match content_type {
            Some(header) => match media_type(header) {
                Some((kind, subtype)) => ArtFormat::from_media_type(
                    kind.as_str(),
                    subtype.as_str(),
                ),
                None => None,
            },
            None => None,
        }
    }

    /// The subtype of `image` by which the format is asked for.
    pub fn subtype(&self) -> (name: &'static str)
        ensures
            format_of("image"@, name@) == Some(*self),
    {
        proof {
            reveal_strlit("webp");
            reveal_strlit("jpeg");
            reveal_strlit("png");
        }
        assert("jpeg"@[0] != "webp"@[0]);
        assert("png"@.len() != "webp"@.len());
        assert("png"@.len() != "jpeg"@.len());
        match self {
            ArtFormat::Webp => "webp",
            ArtFormat::Jpeg => "jpeg",
            ArtFormat::Png => "png",
        }
    }
}

/// The formats that are offered to the server: WebP before JPEG before PNG.
pub fn accept_preferences() -> (accept: Vec<(ArtFormat, u16)>)
    ensures
        accept@ == preferences(),
{
    let mut accept: Vec<(ArtFormat, u16)> = Vec::new();
    accept.push((ArtFormat::Webp, 1000));
    accept.push((ArtFormat::Jpeg, 900));
    accept.push((ArtFormat::Png, 800));
    assert(accept@ =~= preferences());
    accept
}

/// Prepares the request for an address: refuses an address that is no URI,
/// and offers the three formats in their order of preference.
pub fn plan(address: &str) -> (request: Result<ArtRequest, ArtError>)
    ensures
        request.is_ok() <==> uri_parses(address@),
        request matches Ok(r) ==> r.address@ == address@ && r.accept@ == preferences()
            && r.accept_header@ == ACCEPT@,
        request matches Err(e) ==> e == ArtError::Address,
{
    if is_uri(address) {
        Ok(
            ArtRequest {
                address: address.to_owned(),
                accept: accept_preferences(),
                accept_header: ACCEPT.to_owned(),
            },
        )
    } else {
        Err(ArtError::Address)
    }
}

/// Reads the value of a `Content-Length` header.
pub fn parse_content_length(value: &str) -> (length: Option<u64>)
    ensures
        length == announced_length(value.spec_bytes()),
{
    let bytes = value.as_bytes();
    let n = bytes.len();
    if n == 0 {
        return None;
    }
    let mut total: u64 = 0;
    let mut beyond = false;
    let mut i: usize = 0;
    assert(bytes@.take(0) =~= Seq::<u8>::empty());
    while i < n
        invariant
            i <= n,
            n == bytes@.len(),
            bytes@ == value.spec_bytes(),
            all_digits(bytes@.take(i as int)),
            !beyond ==> total == digits_value(bytes@.take(i as int)),
            beyond ==> digits_value(bytes@.take(i as int)) > u64::MAX,
        decreases n - i,
    {
        let byte = bytes[i];
        if byte < 48 || byte > 57 {
            assert(!is_digit(bytes@[i as int]));
            return None;
        }
        let digit: u64 = (byte - 48) as u64;
        proof {
            let longer = bytes@.take(i + 1);
            assert(longer.drop_last() =~= bytes@.take(i as int));
            assert(longer.last() == byte);
            assert forall|k: int| 0 <= k < longer.len() implies is_digit(#[trigger] longer[k]) by {
                if k < i {
                    assert(longer[k] == bytes@.take(i as int)[k]);
                }
            }
            assert(digits_value(longer) == digits_value(bytes@.take(i as int)) * 10 + digit);
        }
        if !beyond {
            if total > (u64::MAX - digit) / 10 {
                beyond = true;
            } else {
                total = total * 10 + digit;
            }
        }
        i += 1;
    }
    assert(bytes@.take(n as int) =~= bytes@);
    if beyond {
        Some(u64::MAX)
    } else {
        Some(total)
    }
}

impl ResponseHead {
    /// The head of an answer with the given status and headers.
    pub fn new(status: u16, content_type: Option<&str>, content_length: Option<&str>) -> (head:
        ResponseHead)
        ensures
            (head.status, crate::playback::text_of(head.content_type), head.content_length)
                == head_of(
                status,
                match content_type {
                    Some(value) => Some(value@),
                    None => None,
                },
                match content_length {
                    Some(value) => Some(value.spec_bytes()),
                    None => None,
                },
            ),
    {
        ResponseHead {
            status,
            content_type: match content_type {
                Some(value) => Some(value.to_owned()),
                None => None,
            },
            content_length: match content_length {
                Some(value) => parse_content_length(value),
                None => None,
            },
        }
    }
}

/// Judges an answer by its status, its announced length and the format that
/// its content type stands for.
pub fn judge(status: u16, content_length: Option<u64>, format: Option<ArtFormat>) -> (taken: Result<
    ArtFormat,
    ArtError,
>)
    ensures
        taken == verdict(status, content_length, format),
{
    if status != STATUS_OK {
        return Err(ArtError::Status(status));
    }
    match content_length {
        Some(length) if length > MAXIMUM_LENGTH => {
            return Err(ArtError::TooLarge(length));
        },
        _ => {},
    }
    match format {
        Some(format) => Ok(format),
        None => Err(ArtError::UnsupportedType),
    }
}

/// Judges the head of an answer, before any of its body is read.
pub fn check_response(head: &ResponseHead) -> (taken: Result<ArtFormat, ArtError>)
    ensures
        taken == verdict(
            head.status,
            head.content_length,
            format_of_header(crate::playback::text_of(head.content_type)),
        ),
{
    let format = match &head.content_type {
        Some(header) => ArtFormat::from_content_type(Some(header.as_str())),
        None => ArtFormat::from_content_type(None),
    };
    judge(head.status, head.content_length, format)
}

/// Makes the image of what a decoder handed out. Output that does not hold
/// four bytes for each pixel counts as a failure to decode.
pub fn image_from(decoded: Option<(u32, u32, Vec<u8>)>) -> (image: Result<Raster, ArtError>)
    ensures
        outcome_model(image) == image_result(decoded_model(decoded)),
{
    match decoded {
        Some((width, height, pixels)) => match Raster::from_parts(width, height, pixels) {
            Some(raster) => Ok(raster),
            None => Err(ArtError::Decode),
        },
        None => Err(ArtError::Decode),
    }
}

/// Decodes the body of an answer that was taken as the given format. The
/// decoder is the caller's: it is called once, with the body and the
/// format, and hands out the width, the height and the RGBA bytes of the
/// picture, or nothing where it fails.
pub fn decode_image<F>(body: &[u8], format: ArtFormat, decoder: F) -> (image: Result<
    Raster,
    ArtError,
>) where F: FnOnce(&[u8], ArtFormat) -> Option<(u32, u32, Vec<u8>)>
    requires
        call_requires(decoder, (body, format)),
    ensures
        exists|decoded: Option<(u32, u32, Vec<u8>)>|
            call_ensures(decoder, (body, format), decoded) && outcome_model(image) == image_result(
                decoded_model(decoded),
            ),
{
    let decoded = decoder(body, format);
    let ghost witness = decoded;
    let image = image_from(decoded);
    assert(call_ensures(decoder, (body, format), witness) && outcome_model(image) == image_result(
        decoded_model(witness),
    ));
    image
}

/// Runs the whole pipeline on an answer that has come in full: the address
/// must be a URI, the head must be taken, and the body must decode. An
/// answer that is refused for its address or its head is refused without
/// the decoder being called.
pub fn load<F>(address: &str, head: &ResponseHead, body: &[u8], decoder: F) -> (image: Result<
    Raster,
    ArtError,
>) where F: FnOnce(&[u8], ArtFormat) -> Option<(u32, u32, Vec<u8>)>
    requires
        forall|format: ArtFormat| call_requires(decoder, (body, format)),
    ensures
        refusal(address@, *head) matches Some(error) ==> image == Err::<Raster, ArtError>(error),
        refusal(address@, *head).is_none() ==> exists|
            format: ArtFormat,
            decoded: Option<(u32, u32, Vec<u8>)>,
        |
            verdict(
                head.status,
                head.content_length,
                format_of_header(crate::playback::text_of(head.content_type)),
            ) == Ok::<ArtFormat, ArtError>(format) && call_ensures(decoder, (body, format), decoded)
                && outcome_model(image) == image_result(decoded_model(decoded)),
{
    if !is_uri(address) {
        return Err(ArtError::Address);
    }
    match check_response(head) {
        Ok(format) => {
            let decoded = decoder(body, format);
            let ghost witness = decoded;
            let image = image_from(decoded);
            assert(verdict(
                head.status,
                head.content_length,
                format_of_header(crate::playback::text_of(head.content_type)),
            ) == Ok::<ArtFormat, ArtError>(format) && call_ensures(decoder, (body, format), witness)
                && outcome_model(image) == image_result(decoded_model(witness)));
            image
        },
        Err(error) => Err(error),
    }
}

/// An answer with any status but 200 is refused, whatever else it says.
pub proof fn lemma_other_status_is_refused(
    status: u16,
    content_length: Option<u64>,
    format: Option<ArtFormat>,
)
    requires
        status != STATUS_OK,
    ensures
        verdict(status, content_length, format) == Err::<ArtFormat, ArtError>(
            ArtError::Status(status),
        ),
{
}

/// An answer that announces more than 4 MiB is refused, and so is one whose
/// content type is missing or stands for no format; every other answer with
/// status 200 is taken as the format its content type stands for.
pub proof fn lemma_verdict_of_ok_answer(content_length: Option<u64>, format: Option<ArtFormat>)
    ensures
        verdict(STATUS_OK, content_length, format).is_ok() <==> format.is_some() && (
        content_length matches Some(length) ==> length <= 4 * 1024 * 1024),
        verdict(STATUS_OK, content_length, format) matches Ok(taken) ==> format == Some(taken),
        format_of_header(None).is_none(),
{
}

} // verus!

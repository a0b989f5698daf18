use vstd::prelude::*;
use vstd::string::StringExecFns;
use vstd::string::StringSliceAdditionalSpecFns;

verus! {

/// The token that delimits the parts of every response body.
pub const BOUNDARY: &'static str = "rstreamer_boundary";

/// The status code of a streaming response.
pub const STATUS_OK: u16 = 200;

/// The decimal notation of `n` in ASCII, without leading zeros.
pub open spec fn decimal_text(n: nat) -> Seq<u8>
    decreases n,
{
    if n < 10 {
        seq![(48 + n) as u8]
    } else {
        decimal_text(n / 10).push((48 + n % 10) as u8)
    }
}

/// The lines that introduce a part whose payload has `len` bytes: the
/// boundary line, the content type, the content length and a blank line.
pub open spec fn part_header(len: nat) -> Seq<u8> {
    "--".spec_bytes() + BOUNDARY.spec_bytes()
        + "\r\nContent-Type: image/jpeg\r\nContent-Length: ".spec_bytes() + decimal_text(len)
        + "\r\n\r\n".spec_bytes()
}

/// The line break that follows the payload of a part.
pub open spec fn part_trailer() -> Seq<u8> {
    "\r\n".spec_bytes()
}

/// The chunks of the part that carries `frame`: header, payload, trailer.
pub open spec fn part_chunks(frame: Seq<u8>) -> Seq<Seq<u8>> {
    seq![part_header(frame.len()), frame, part_trailer()]
}

/// The contents of a list of chunks, chunk by chunk.
pub open spec fn chunk_views(chunks: Seq<Vec<u8>>) -> Seq<Seq<u8>> {
    Seq::new(chunks.len(), |i: int| chunks[i]@)
}

/// The line that ends a response body.
pub open spec fn closing_boundary() -> Seq<u8> {
    "--".spec_bytes() + BOUNDARY.spec_bytes() + "--\r\n".spec_bytes()
}

/// The value of the response's `Content-Type` header.
pub open spec fn content_type() -> Seq<char> {
    "multipart/x-mixed-replace; boundary="@ + BOUNDARY@
}

/// Writes `n` in decimal.
pub fn encode_decimal(n: usize) -> (text: Vec<u8>)
    ensures
        text@ == decimal_text(n as nat),
{
    let mut text: Vec<u8> = Vec::new();
    let mut rest: usize = n;
    while rest >= 10
        invariant
            decimal_text(n as nat) == decimal_text(rest as nat) + text@,
        decreases rest,
    {
        let digit: u8 = 48 + (rest % 10) as u8;
        assert(decimal_text(rest as nat) + text@ =~= decimal_text((rest / 10) as nat)
            + text@.insert(0, digit));
        text.insert(0, digit);
        rest = rest / 10;
    }
    let digit: u8 = 48 + rest as u8;
    assert(decimal_text(rest as nat) + text@ =~= text@.insert(0, digit));
    text.insert(0, digit);
    text
}

/// Builds the header of a part whose payload has `len` bytes.
pub fn encode_part_header(len: usize) -> (header: Vec<u8>)
    ensures
        header@ == part_header(len as nat),
{
    let mut header: Vec<u8> = Vec::new();
    header.extend_from_slice("--".as_bytes());
    header.extend_from_slice(BOUNDARY.as_bytes());
    header.extend_from_slice("\r\nContent-Type: image/jpeg\r\nContent-Length: ".as_bytes());
    let digits = encode_decimal(len);
    header.extend_from_slice(digits.as_slice());
    header.extend_from_slice("\r\n\r\n".as_bytes());
    header
}

/// Builds the line break that follows a payload.
pub fn encode_part_trailer() -> (trailer: Vec<u8>)
    ensures
        trailer@ == part_trailer(),
{
    let mut trailer: Vec<u8> = Vec::new();
    trailer.extend_from_slice("\r\n".as_bytes());
    trailer
}

/// Wraps `frame` into the chunks of one part. The payload chunk is the frame
/// itself.
pub fn encode_part(frame: Vec<u8>) -> (chunks: Vec<Vec<u8>>)
    ensures
        chunk_views(chunks@) == part_chunks(frame@),
{
    let header = encode_part_header(frame.len());
    let trailer = encode_part_trailer();
    let mut chunks: Vec<Vec<u8>> = Vec::new();
    chunks.push(header);
    chunks.push(frame);
    chunks.push(trailer);
    assert(chunk_views(chunks@) =~= part_chunks(frame@));
    chunks
}

/// Builds the line that ends a response body.
pub fn encode_closing_boundary() -> (line: Vec<u8>)
    ensures
        line@ == closing_boundary(),
{
    let mut line: Vec<u8> = Vec::new();
    line.extend_from_slice("--".as_bytes());
    line.extend_from_slice(BOUNDARY.as_bytes());
    line.extend_from_slice("--\r\n".as_bytes());
    line
}

/// Builds the value of the `Content-Type` header of a streaming response.
pub fn encode_content_type() -> (value: String)
    ensures
        value@ == content_type(),
{
    String::from_str("multipart/x-mixed-replace; boundary=").concat(BOUNDARY)
}

} // verus!

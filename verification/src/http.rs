use vstd::prelude::*;

verus! {

/// The decimal digits of `n` as ASCII bytes, most significant first, with no
/// leading zeros (a single `'0'` for zero).
pub open spec fn dec_spec(n: nat) -> Seq<u8>
    decreases n,
{
    if n < 10 {
        seq![(48 + n) as u8]
    } else {
        dec_spec(n / 10).push((48 + n % 10) as u8)
    }
}

/// The carriage-return, line-feed pair that ends every header line.
pub open spec fn crlf() -> Seq<u8> {
    seq![13u8, 10u8]
}

/// The fixed part of every multipart chunk header, up to where the decimal
/// content length goes, as ASCII bytes:
/// `--frame\r\nContent-Type: image/jpeg\r\nContent-Length: `.
pub open spec fn chunk_prefix() -> Seq<u8> {
    seq![
        45u8, 45, 102, 114, 97, 109, 101, 13, 10, 67, 111, 110, 116,
        101, 110, 116, 45, 84, 121, 112, 101, 58, 32, 105, 109, 97,
        103, 101, 47, 106, 112, 101, 103, 13, 10, 67, 111, 110, 116,
        101, 110, 116, 45, 76, 101, 110, 103, 116, 104, 58, 32,
    ]
}

/// One whole multipart chunk for a frame whose bytes are `b`: the boundary
/// and headers, a blank line, the frame bytes, and a trailing line end.
pub open spec fn chunk_spec(b: Seq<u8>) -> Seq<u8> {
    chunk_prefix() + dec_spec(b.len()) + crlf() + crlf() + b + crlf()
}

/// The one-time response head every accepted connection receives, as ASCII
/// bytes:
/// `HTTP/1.1 200 OK\r\nContent-Type: multipart/x-mixed-replace; boundary=frame\r\n\r\n`.
pub open spec fn response_header_spec() -> Seq<u8> {
    seq![
        72u8, 84, 84, 80, 47, 49, 46, 49, 32, 50, 48, 48, 32,
        79, 75, 13, 10, 67, 111, 110, 116, 101, 110, 116, 45, 84,
        121, 112, 101, 58, 32, 109, 117, 108, 116, 105, 112, 97, 114,
        116, 47, 120, 45, 109, 105, 120, 101, 100, 45, 114, 101, 112,
        108, 97, 99, 101, 59, 32, 98, 111, 117, 110, 100, 97, 114,
        121, 61, 102, 114, 97, 109, 101, 13, 10, 13, 10,
    ]
}

/// Append the decimal digits of `n` to `out`.
fn push_decimal(n: u64, out: &mut Vec<u8>)
    ensures
        final(out)@ == old(out)@ + dec_spec(n as nat),
    decreases n,
{
    if n < 10 {
        out.push(48 + n as u8);
    } else {
        push_decimal(n / 10, out);
        out.push(48 + (n % 10) as u8);
    }
}

/// Append the fixed chunk-header prefix to `out`.
fn push_chunk_prefix(out: &mut Vec<u8>)
    ensures
        final(out)@ == old(out)@ + chunk_prefix(),
{
    out.push(45); out.push(45); out.push(102); out.push(114); out.push(97); out.push(109); out.push(101); out.push(13);
    out.push(10); out.push(67); out.push(111); out.push(110); out.push(116); out.push(101); out.push(110); out.push(116);
    out.push(45); out.push(84); out.push(121); out.push(112); out.push(101); out.push(58); out.push(32); out.push(105);
    out.push(109); out.push(97); out.push(103); out.push(101); out.push(47); out.push(106); out.push(112); out.push(101);
    out.push(103); out.push(13); out.push(10); out.push(67); out.push(111); out.push(110); out.push(116); out.push(101);
    out.push(110); out.push(116); out.push(45); out.push(76); out.push(101); out.push(110); out.push(103); out.push(116);
    out.push(104); out.push(58); out.push(32);
    proof {
        assert(out@ =~= old(out)@ + chunk_prefix());
    }
}

/// The bytes of one whole multipart chunk carrying the frame bytes `bytes`.
pub fn encode_chunk(bytes: &Vec<u8>) -> (r: Vec<u8>)
    ensures
        r@ == chunk_spec(bytes@),
{
    let mut out: Vec<u8> = Vec::new();
    push_chunk_prefix(&mut out);
    push_decimal(bytes.len() as u64, &mut out);
    out.push(13); out.push(10); out.push(13); out.push(10);
    let ghost head = out@;
    let mut i: usize = 0;
    while i < bytes.len()
        invariant
            i <= bytes.len(),
            out@ == head + bytes@.take(i as int),
        decreases bytes.len() - i,
    {
        out.push(bytes[i]);
        i += 1;
    }
    out.push(13); out.push(10);
    proof {
        assert(out@ =~= chunk_spec(bytes@));
    }
    out
}

/// The bytes of the one-time response head for a newly accepted connection.
pub fn response_header() -> (r: Vec<u8>)
    ensures
        r@ == response_header_spec(),
{
    let mut out: Vec<u8> = Vec::new();
    out.push(72); out.push(84); out.push(84); out.push(80); out.push(47); out.push(49); out.push(46); out.push(49);
    out.push(32); out.push(50); out.push(48); out.push(48); out.push(32); out.push(79); out.push(75); out.push(13);
    out.push(10); out.push(67); out.push(111); out.push(110); out.push(116); out.push(101); out.push(110); out.push(116);
    out.push(45); out.push(84); out.push(121); out.push(112); out.push(101); out.push(58); out.push(32); out.push(109);
    out.push(117); out.push(108); out.push(116); out.push(105); out.push(112); out.push(97); out.push(114); out.push(116);
    out.push(47); out.push(120); out.push(45); out.push(109); out.push(105); out.push(120); out.push(101); out.push(100);
    out.push(45); out.push(114); out.push(101); out.push(112); out.push(108); out.push(97); out.push(99); out.push(101);
    out.push(59); out.push(32); out.push(98); out.push(111); out.push(117); out.push(110); out.push(100); out.push(97);
    out.push(114); out.push(121); out.push(61); out.push(102); out.push(114); out.push(97); out.push(109); out.push(101);
    out.push(13); out.push(10); out.push(13); out.push(10);
    proof {
        assert(out@ =~= response_header_spec());
    }
    out
}

} // verus!

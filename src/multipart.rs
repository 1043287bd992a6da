//! A single-part `multipart/form-data` body for one file field.

use vstd::prelude::*;
use vstd::utf8::{decode_utf8, encode_utf8};

verus! {

/// The boundary token that separates the parts of an upload body.
pub const UPLOAD_BOUNDARY: &'static str = "----TauriUploadBoundary";

/// The header block of the file part: delimiter line, disposition line with
/// the file name, content type line and the blank line before the data.
pub open spec fn file_part_head(filename: Seq<char>, boundary: Seq<char>) -> Seq<char> {
    "--"@ + boundary + "\r\nContent-Disposition: form-data; name=\"file\"; filename=\""@ + filename
        + "\"\r\nContent-Type: application/octet-stream\r\n\r\n"@
}

/// What follows the file data: the line break and the closing delimiter.
pub open spec fn file_part_tail(boundary: Seq<char>) -> Seq<char> {
    "\r\n--"@ + boundary + "--\r\n"@
}

/// The whole body, as bytes.
pub open spec fn file_part(filename: Seq<char>, data: Seq<u8>, boundary: Seq<char>) -> Seq<u8> {
    encode_utf8(file_part_head(filename, boundary)) + data + encode_utf8(file_part_tail(boundary))
}

/// Builds the body that uploads `file_bytes` under the field name `file`.
/// The bytes are copied verbatim; the boundary is not searched for in them.
pub fn encode_file_part(filename: &str, file_bytes: &Vec<u8>, boundary: &str) -> (r: Vec<u8>)
    ensures
        r@ == file_part(filename@, file_bytes@, boundary@),
{
    let mut head = String::new();
    head.append("--");
    head.append(boundary);
    head.append("\r\nContent-Disposition: form-data; name=\"file\"; filename=\"");
    head.append(filename);
    head.append("\"\r\nContent-Type: application/octet-stream\r\n\r\n");
    let mut tail = String::new();
    tail.append("\r\n--");
    tail.append(boundary);
    tail.append("--\r\n");
    let mut body = vstd::slice::slice_to_vec(head.as_str().as_bytes());
    let mut i: usize = 0;
    while i < file_bytes.len()
        invariant
            i <= file_bytes@.len(),
            body@ == encode_utf8(head@) + file_bytes@.subrange(0, i as int),
        decreases file_bytes@.len() - i,
    {
        body.push(file_bytes[i]);
        i = i + 1;
        assert(file_bytes@.subrange(0, i as int) =~= file_bytes@.subrange(0, i - 1) + seq![file_bytes@[i - 1]]);
    }
    let trailer = tail.as_str().as_bytes();
    let mut j: usize = 0;
    while j < trailer.len()
        invariant
            j <= trailer@.len(),
            trailer@ == encode_utf8(tail@),
            body@ == encode_utf8(head@) + file_bytes@ + trailer@.subrange(0, j as int),
        decreases trailer@.len() - j,
    {
        body.push(trailer[j]);
        j = j + 1;
        assert(trailer@.subrange(0, j as int) =~= trailer@.subrange(0, j - 1) + seq![trailer@[j - 1]]);
    }
    assert(file_bytes@.subrange(0, file_bytes@.len() as int) =~= file_bytes@);
    assert(trailer@.subrange(0, trailer@.len() as int) =~= trailer@);
    proof {
        reveal_strlit("--");
        reveal_strlit("\r\nContent-Disposition: form-data; name=\"file\"; filename=\"");
        reveal_strlit("\"\r\nContent-Type: application/octet-stream\r\n\r\n");
        reveal_strlit("\r\n--");
        reveal_strlit("--\r\n");
    }
    body
}

} // verus!

verus! {

/// What precedes the file name in the header block.
pub open spec fn name_prefix(boundary: Seq<char>) -> Seq<char> {
    "--"@ + boundary + "\r\nContent-Disposition: form-data; name=\"file\"; filename=\""@
}

/// What follows the file name in the header block.
pub open spec fn name_suffix() -> Seq<char> {
    "\"\r\nContent-Type: application/octet-stream\r\n\r\n"@
}

/// The UTF-8 bytes of two texts side by side are the bytes of each in turn.
pub proof fn lemma_encode_utf8_concat(a: Seq<char>, b: Seq<char>)
    ensures
        encode_utf8(a + b) == encode_utf8(a) + encode_utf8(b),
    decreases a.len(),
{
    if a.len() == 0 {
        assert(a + b =~= b);
        assert(encode_utf8(a) + encode_utf8(b) =~= encode_utf8(b));
    } else {
        assert((a + b).drop_first() =~= a.drop_first() + b);
        assert((a + b)[0] == a[0]);
        lemma_encode_utf8_concat(a.drop_first(), b);
        assert(encode_utf8(a + b) =~= encode_utf8(a) + encode_utf8(b));
    }
}

/// A body reads back into what it was made of: the bytes between the header
/// block and the closing delimiter are the file data, unchanged whatever they
/// hold; the closing delimiter depends on the boundary alone; and in the
/// header block the UTF-8 bytes of the file name stand right after
/// `filename="`, followed by the fixed rest of the block.
pub proof fn lemma_file_part_round_trip(filename: Seq<char>, data: Seq<u8>, boundary: Seq<char>)
    ensures
        ({
            let body = file_part(filename, data, boundary);
            let p = encode_utf8(name_prefix(boundary)).len() as int;
            let f = encode_utf8(filename).len() as int;
            let h = encode_utf8(file_part_head(filename, boundary)).len() as int;
            let t = encode_utf8(file_part_tail(boundary)).len() as int;
            &&& h + data.len() + t == body.len()
            &&& body.subrange(h, body.len() - t) == data
            &&& body.subrange(body.len() - t, body.len() as int) == encode_utf8(
                file_part_tail(boundary),
            )
            &&& body.subrange(0, p) == encode_utf8(name_prefix(boundary))
            &&& body.subrange(p, p + f) == encode_utf8(filename)
            &&& decode_utf8(body.subrange(p, p + f)) == filename
            &&& body.subrange(p + f, h) == encode_utf8(name_suffix())
        }),
{
    let body = file_part(filename, data, boundary);
    let head = file_part_head(filename, boundary);
    let pre = name_prefix(boundary);
    let eh = encode_utf8(head);
    let et = encode_utf8(file_part_tail(boundary));
    assert(head =~= pre + filename + name_suffix());
    lemma_encode_utf8_concat(pre, filename);
    lemma_encode_utf8_concat(pre + filename, name_suffix());
    let ep = encode_utf8(pre);
    let ef = encode_utf8(filename);
    let es = encode_utf8(name_suffix());
    assert(eh == ep + ef + es);
    assert(body.subrange(eh.len() as int, body.len() - et.len()) =~= data);
    assert(body.subrange(body.len() - et.len(), body.len() as int) =~= et);
    assert(body.subrange(0, ep.len() as int) =~= ep);
    assert(body.subrange(ep.len() as int, (ep.len() + ef.len()) as int) =~= ef);
    assert(body.subrange((ep.len() + ef.len()) as int, eh.len() as int) =~= es);
    vstd::utf8::encode_utf8_decode_utf8(filename);
}

} // verus!

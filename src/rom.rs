//! Boot-ROM image packaging: recognises an input image, computes the
//! container header fields and lays the image out in an output buffer.
use vstd::prelude::*;
use crc::{Crc, CRC_16_XMODEM};

verus! {

/// Size of the container header that precedes the image payload.
pub const HEADER_LENGTH: usize = 0x1000;

/// Little-endian magic at offset 0 of a raw BL2 blob.
pub const RAW_BLOB_MAGIC: u32 = 0x0200006F;

/// Little-endian magic at offset 0 of a complete FIP container.
pub const CVBL_FIP_MAGIC: u32 = 0x4C425643;

/// Little-endian magic at offset 0 of an ELF file.
pub const ELF_MAGIC: u32 = 0x7F454C46;

/// Fixed value of the chip-configuration size field of the header.
pub const CHIP_CONF_SIZE: u32 = 0x2F8;

/// High half added to every 16-bit checksum stored in the header.
pub const CHECKSUM_BASE: u32 = 0xCAFE0000;

/// Errors of image recognition and processing.
#[allow(inconsistent_fields)]
#[derive(Debug, PartialEq, Eq)]
pub enum Error {
    /// The input is too short, or too long for a 32-bit size field.
    HeadLength { wrong_length: usize },
    /// The leading 32-bit magic names no known format.
    MagicNumber { wrong_magic: u32 },
    /// The first 32 bytes of a raw blob are not the blob magic.
    RawBlobMagic { wrong_magic: [u8; 32] },
    /// The payload does not fit in the declared full image length.
    ImageContentLength { wrong_content_length: usize, wrong_full_length: usize },
    /// The declared full image length cannot hold the container header.
    ImageFullLength { wrong_full_length: usize },
    /// The output buffer is shorter than the declared full image length.
    OutputBufferLength { wrong_length: usize },
    /// The format is recognised but its handling is not available.
    UnsupportedFormat { magic: u32 },
}

/// Checksums and size to write into the container header.
pub struct HeaderInfo {
    pub blcp_image_checksum: u32,
    pub bl2_image_checksum: u32,
    pub bl2_image_size: u32,
}

/// What `process` has to do to turn an input image into a boot image.
pub struct Operations<'a> {
    pub refill_header: Option<HeaderInfo>,
    pub set_image_content: Option<&'a [u8]>,
    pub resize_image_full_length: usize,
}

/// The CRC-16/XMODEM checksum of a byte sequence.
pub uninterp spec fn xmodem_crc(data: Seq<u8>) -> u16;

/// Relies on `crc::Crc::<u16>::checksum` with the `CRC_16_XMODEM`
/// algorithm: the checksum depends on the bytes alone.
#[verifier::external_body]
fn checksum_xmodem(data: &[u8]) -> (r: u16)
    ensures
        r == xmodem_crc(data@),
{
    Crc::<u16>::new(&CRC_16_XMODEM).checksum(data)
}

/// The four little-endian bytes of `v`.
pub open spec fn le_bytes(v: u32) -> Seq<u8> {
    seq![
        (v & 0xff) as u8,
        ((v >> 8) & 0xff) as u8,
        ((v >> 16) & 0xff) as u8,
        ((v >> 24) & 0xff) as u8,
    ]
}

/// The little-endian 32-bit value of the first four bytes of `s`.
pub open spec fn le_u32(s: Seq<u8>) -> u32
    recommends
        s.len() >= 4,
{
    (s[0] as u32) | ((s[1] as u32) << 8) | ((s[2] as u32) << 16) | ((s[3] as u32) << 24)
}

/// `s` with the bytes from `at` on replaced by `data`.
pub open spec fn overwrite(s: Seq<u8>, at: int, data: Seq<u8>) -> Seq<u8> {
    s.subrange(0, at) + data + s.subrange(at + data.len(), s.len() as int)
}

/// The 32 bytes that open a raw BL2 blob.
pub open spec fn blob_magic() -> Seq<u8> {
    seq![0x6Fu8, 0x00, 0x00, 0x02] + Seq::new(28, |i: int| 0u8)
}

/// The 12 bytes that open a container header: `"CVBL01\n"` and zeros.
pub open spec fn cvbl01_magic() -> Seq<u8> {
    seq![0x43u8, 0x56, 0x42, 0x4C, 0x30, 0x31, 0x0A, 0x00, 0x00, 0x00, 0x00, 0x00]
}

/// Zeros added after a blob of `n` bytes: up to the next multiple of 512,
/// and a whole block when `n` is already one.
pub open spec fn padding_len(n: int) -> int {
    512 - n % 512
}

/// A blob followed by its zero padding.
pub open spec fn padded_blob(s: Seq<u8>) -> Seq<u8> {
    s + Seq::new(padding_len(s.len() as int) as nat, |i: int| 0u8)
}

/// Whether a blob of `n` bytes has a size that the header can record, and
/// whose padded image with its header fits the address space.
pub open spec fn blob_length_ok(n: int) -> bool {
    &&& 32 <= n <= u32::MAX - 512
    &&& HEADER_LENGTH + n + padding_len(n) <= usize::MAX
}

/// The operations that package a valid raw blob.
pub open spec fn raw_blob_operations<'a>(buf: &'a [u8]) -> Operations<'a> {
    let n = buf@.len() as int;
    Operations {
        refill_header: Some(
            HeaderInfo {
                blcp_image_checksum: CHECKSUM_BASE,
                bl2_image_checksum: (CHECKSUM_BASE + xmodem_crc(padded_blob(buf@))) as u32,
                bl2_image_size: (n + padding_len(n)) as u32,
            },
        ),
        set_image_content: Some(buf),
        resize_image_full_length: (HEADER_LENGTH + n + padding_len(n)) as usize,
    }
}

/// What `check_raw_blob` owes on `buf`.
pub open spec fn raw_blob_checked<'a>(buf: &'a [u8], r: Result<Operations<'a>, Error>) -> bool {
    if !blob_length_ok(buf@.len() as int) {
        r == Err::<Operations<'a>, Error>(Error::HeadLength { wrong_length: buf@.len() as usize })
    } else if buf@.subrange(0, 32) != blob_magic() {
        match r {
            Err(Error::RawBlobMagic { wrong_magic }) => wrong_magic@ == buf@.subrange(0, 32),
            _ => false,
        }
    } else {
        r == Ok::<Operations<'a>, Error>(raw_blob_operations(buf))
    }
}

fn read_u32_le(buf: &[u8]) -> (r: u32)
    requires
        buf@.len() >= 4,
    ensures
        r == le_u32(buf@),
{
    (buf[0] as u32) | ((buf[1] as u32) << 8) | ((buf[2] as u32) << 16) | ((buf[3] as u32) << 24)
}

/// Recognises the format of `buf` by its leading little-endian magic and
/// returns the operations that turn it into a boot image.
pub fn check(buf: &[u8]) -> (r: Result<Operations<'_>, Error>)
    ensures
        buf@.len() < 4 ==> r == Err::<Operations<'_>, Error>(
            Error::HeadLength { wrong_length: buf@.len() as usize },
        ),
        buf@.len() >= 4 ==> {
            let magic = le_u32(buf@);
            if magic == RAW_BLOB_MAGIC {
                raw_blob_checked(buf, r)
            } else if magic == CVBL_FIP_MAGIC || magic == ELF_MAGIC {
                r == Err::<Operations<'_>, Error>(Error::UnsupportedFormat { magic })
            } else {
                r == Err::<Operations<'_>, Error>(Error::MagicNumber { wrong_magic: magic })
            }
        },
{
    if buf.len() < 4 {
        return Err(Error::HeadLength { wrong_length: buf.len() });
    }
    let magic = read_u32_le(buf);
    if magic == RAW_BLOB_MAGIC {
        check_raw_blob(buf)
    } else if magic == CVBL_FIP_MAGIC {
        check_cvbl_fip(buf)
    } else if magic == ELF_MAGIC {
        check_elf(buf)
    } else {
        Err(Error::MagicNumber { wrong_magic: magic })
    }
}

fn matches_blob_magic(buf: &[u8]) -> (r: bool)
    requires
        buf@.len() >= 32,
    ensures
        r == (buf@.subrange(0, 32) == blob_magic()),
{
    let ok = buf[0] == 0x6F && buf[1] == 0 && buf[2] == 0 && buf[3] == 2;
    if !ok {
        assert(buf@.subrange(0, 32)[0] != blob_magic()[0] || buf@.subrange(0, 32)[1] != blob_magic()[1]
            || buf@.subrange(0, 32)[2] != blob_magic()[2] || buf@.subrange(0, 32)[3] != blob_magic()[3]);
        return false;
    }
    let mut i: usize = 4;
    while i < 32
        invariant
            4 <= i <= 32,
            buf@.len() >= 32,
            buf@.subrange(0, i as int) == blob_magic().subrange(0, i as int),
        decreases 32 - i,
    {
        if buf[i] != 0 {
            assert(buf@.subrange(0, 32)[i as int] != blob_magic()[i as int]);
            return false;
        }
        assert(buf@.subrange(0, i + 1) =~= blob_magic().subrange(0, i + 1)) by {
            assert(buf@.subrange(0, i as int) =~= blob_magic().subrange(0, i as int));
        }
        i += 1;
    }
    assert(buf@.subrange(0, 32) =~= blob_magic().subrange(0, 32));
    assert(blob_magic().subrange(0, 32) =~= blob_magic());
    true
}

fn magic_bytes(buf: &[u8]) -> (r: [u8; 32])
    requires
        buf@.len() >= 32,
    ensures
        r@ == buf@.subrange(0, 32),
{
    let mut out = [0u8; 32];
    let mut i: usize = 0;
    while i < 32
        invariant
            i <= 32,
            buf@.len() >= 32,
            out@.len() == 32,
            forall|j: int| 0 <= j < i ==> out@[j] == buf@[j],
        decreases 32 - i,
    {
        out[i] = buf[i];
        i += 1;
    }
    assert(out@ =~= buf@.subrange(0, 32));
    out
}

fn check_raw_blob(buf: &[u8]) -> (r: Result<Operations<'_>, Error>)
    ensures
        raw_blob_checked(buf, r),
{
    let len = buf.len();
    if len < 32 || len > (u32::MAX - 512) as usize || len > usize::MAX - HEADER_LENGTH - 512 {
        return Err(Error::HeadLength { wrong_length: len });
    }
    if !matches_blob_magic(buf) {
        return Err(Error::RawBlobMagic { wrong_magic: magic_bytes(buf) });
    }
    let padding_len = 512 - len % 512;
    let mut padded: Vec<u8> = Vec::new();
    let mut i: usize = 0;
    while i < len
        invariant
            i <= len == buf@.len(),
            padded@ == buf@.subrange(0, i as int),
        decreases len - i,
    {
        padded.push(buf[i]);
        i += 1;
    }
    let mut k: usize = 0;
    while k < padding_len
        invariant
            k <= padding_len,
            len == buf@.len(),
            padded@ == buf@ + Seq::new(k as nat, |j: int| 0u8),
        decreases padding_len - k,
    {
        padded.push(0);
        k += 1;
        assert(padded@ =~= buf@ + Seq::new(k as nat, |j: int| 0u8));
    }
    assert(buf@ =~= buf@.subrange(0, len as int));
    let bl2_checksum = CHECKSUM_BASE + checksum_xmodem(padded.as_slice()) as u32;
    let bl2_padded_size = len + padding_len;
    Ok(Operations {
        refill_header: Some(HeaderInfo {
            blcp_image_checksum: CHECKSUM_BASE,
            bl2_image_checksum: bl2_checksum,
            bl2_image_size: bl2_padded_size as u32,
        }),
        set_image_content: Some(buf),
        resize_image_full_length: HEADER_LENGTH + bl2_padded_size,
    })
}

/// Complete FIP containers are recognised but not yet repaired.
fn check_cvbl_fip(buf: &[u8]) -> (r: Result<Operations<'_>, Error>)
    ensures
        r == Err::<Operations<'_>, Error>(Error::UnsupportedFormat { magic: CVBL_FIP_MAGIC }),
{
    Err(Error::UnsupportedFormat { magic: CVBL_FIP_MAGIC })
}

/// ELF files that wrap a blob are recognised but not yet unpacked.
fn check_elf(buf: &[u8]) -> (r: Result<Operations<'_>, Error>)
    ensures
        r == Err::<Operations<'_>, Error>(Error::UnsupportedFormat { magic: ELF_MAGIC }),
{
    Err(Error::UnsupportedFormat { magic: ELF_MAGIC })
}

/// The header fields of `h` written over `s`, before the parameter checksum.
pub open spec fn header_fields(s: Seq<u8>, h: HeaderInfo) -> Seq<u8> {
    let s1 = overwrite(s, 0, cvbl01_magic());
    let s2 = overwrite(s1, 0xBC, le_bytes(CHIP_CONF_SIZE));
    let s3 = overwrite(s2, 0xC0, le_bytes(h.blcp_image_checksum));
    let s4 = overwrite(s3, 0xD4, le_bytes(h.bl2_image_checksum));
    overwrite(s4, 0xD8, le_bytes(h.bl2_image_size))
}

/// The parameter checksum over bytes `[0x10, 0x800)` of a header.
pub open spec fn param_checksum(s: Seq<u8>) -> u32 {
    (CHECKSUM_BASE + xmodem_crc(s.subrange(0x10, 0x800))) as u32
}

/// `s` with the header of `h` written over its start: the fields, then the
/// parameter checksum computed over the bytes so written.
pub open spec fn patched_header(s: Seq<u8>, h: HeaderInfo) -> Seq<u8> {
    let f = header_fields(s, h);
    overwrite(f, 0xC, le_bytes(param_checksum(f)))
}

/// The error `process` reports on an output buffer of `len` bytes, if any.
///
/// A declared full length below the header size is refused with
/// `ImageFullLength` before anything else, with or without a payload: such
/// an image cannot hold its header, and a header patch would write past it.
/// This is a deliberate choice; with a payload, the remaining length checks
/// report `ImageContentLength`.
pub open spec fn process_error(len: int, ops: Operations) -> Option<Error> {
    let full = ops.resize_image_full_length as int;
    if len < full {
        Some(Error::OutputBufferLength { wrong_length: len as usize })
    } else if full < HEADER_LENGTH {
        Some(Error::ImageFullLength { wrong_full_length: full as usize })
    } else {
        match ops.set_image_content {
            Some(c) => if c@.len() > u32::MAX || full > u32::MAX || HEADER_LENGTH + c@.len()
                > full {
                Some(
                    Error::ImageContentLength {
                        wrong_content_length: c@.len() as usize,
                        wrong_full_length: full as usize,
                    },
                )
            } else {
                None
            },
            None => None,
        }
    }
}

/// The output buffer `s` after a successful `process`.
pub open spec fn processed(s: Seq<u8>, ops: Operations) -> Seq<u8> {
    let s1 = match ops.refill_header {
        Some(h) => patched_header(s, h),
        None => s,
    };
    match ops.set_image_content {
        Some(c) => overwrite(s1, HEADER_LENGTH as int, c@),
        None => s1,
    }
}

fn write_bytes(buf: &mut [u8], at: usize, data: &[u8])
    requires
        at + data@.len() <= old(buf)@.len(),
    ensures
        final(buf)@ == overwrite(old(buf)@, at as int, data@),
{
    let n = buf.len();
    let end = at + data.len();
    assert(end <= n);
    let mut i: usize = 0;
    while i < data.len()
        invariant
            i <= data@.len(),
            end == at + data@.len(),
            at + data@.len() <= buf@.len() == old(buf)@.len(),
            buf@ == overwrite(old(buf)@, at as int, data@.subrange(0, i as int)),
        decreases data@.len() - i,
    {
        buf[at + i] = data[i];
        i += 1;
        assert(buf@ =~= overwrite(old(buf)@, at as int, data@.subrange(0, i as int)));
    }
    assert(data@.subrange(0, i as int) =~= data@);
}

fn write_u32_le(buf: &mut [u8], at: usize, v: u32)
    requires
        at + 4 <= old(buf)@.len(),
    ensures
        final(buf)@ == overwrite(old(buf)@, at as int, le_bytes(v)),
{
    buf[at] = (v & 0xff) as u8;
    buf[at + 1] = ((v >> 8) & 0xff) as u8;
    buf[at + 2] = ((v >> 16) & 0xff) as u8;
    buf[at + 3] = ((v >> 24) & 0xff) as u8;
    assert(buf@ =~= overwrite(old(buf)@, at as int, le_bytes(v)));
}

fn write_header(buf: &mut [u8], header: &HeaderInfo)
    requires
        old(buf)@.len() >= 0x800,
    ensures
        final(buf)@ == patched_header(old(buf)@, *header),
{
    let magic: [u8; 12] = [0x43, 0x56, 0x42, 0x4C, 0x30, 0x31, 0x0A, 0x00, 0x00, 0x00, 0x00, 0x00];
    assert(magic@ =~= cvbl01_magic());
    write_bytes(buf, 0, magic.as_slice());
    write_u32_le(buf, 0xBC, CHIP_CONF_SIZE);
    write_u32_le(buf, 0xC0, header.blcp_image_checksum);
    write_u32_le(buf, 0xD4, header.bl2_image_checksum);
    write_u32_le(buf, 0xD8, header.bl2_image_size);
    assert(buf@ == header_fields(old(buf)@, *header));
    let param_checksum = CHECKSUM_BASE + checksum_xmodem(&buf[0x10..0x800]) as u32;
    write_u32_le(buf, 0xC, param_checksum);
}

/// Applies `ops` to the output buffer `buf`: checks the lengths, writes the
/// container header if asked, then copies the payload after the header.
/// On an error the buffer is left as it was.
pub fn process(buf: &mut [u8], ops: &Operations) -> (r: Result<(), Error>)
    ensures
        match process_error(old(buf)@.len() as int, *ops) {
            Some(e) => r == Err::<(), Error>(e) && final(buf)@ == old(buf)@,
            None => r == Ok::<(), Error>(()) && final(buf)@ == processed(old(buf)@, *ops),
        },
{
    let full = ops.resize_image_full_length;
    if buf.len() < full {
        return Err(Error::OutputBufferLength { wrong_length: buf.len() });
    }
    if full < HEADER_LENGTH {
        return Err(Error::ImageFullLength { wrong_full_length: full });
    }
    if let Some(image) = ops.set_image_content {
        if image.len() > u32::MAX as usize || full > u32::MAX as usize || image.len() > full
            - HEADER_LENGTH {
            return Err(
                Error::ImageContentLength {
                    wrong_content_length: image.len(),
                    wrong_full_length: full,
                },
            );
        }
    }
    if let Some(header) = &ops.refill_header {
        write_header(buf, header);
    }
    if let Some(image) = ops.set_image_content {
        write_bytes(buf, HEADER_LENGTH, image);
    }
    Ok(())
}

/// A raw blob whose length is already a multiple of 512 still gets a whole
/// block of zero padding: whatever `check` returns on it (any `r` that
/// meets its contract) is `Ok`, with the recorded image size and the full
/// length grown by 512, never by 0.
pub proof fn lemma_aligned_blob_gets_full_block<'a>(buf: &'a [u8], r: Result<Operations<'a>, Error>)
    requires
        blob_length_ok(buf@.len() as int),
        buf@.len() % 512 == 0,
        buf@.subrange(0, 32) == blob_magic(),
        raw_blob_checked(buf, r),
    ensures
        padding_len(buf@.len() as int) == 512,
        padded_blob(buf@).len() == buf@.len() + 512,
        match r {
            Ok(ops) => {
                &&& ops.resize_image_full_length == HEADER_LENGTH + buf@.len() + 512
                &&& match ops.refill_header {
                    Some(h) => h.bl2_image_size == buf@.len() + 512,
                    None => false,
                }
            },
            Err(_) => false,
        },
{
}

/// An output buffer shorter than the declared full length is refused with
/// its own length, before anything else is looked at.
pub proof fn lemma_short_output_buffer(len: int, ops: Operations)
    requires
        0 <= len < ops.resize_image_full_length,
    ensures
        process_error(len, ops) == Some(Error::OutputBufferLength { wrong_length: len as usize }),
{
}

/// A payload that does not fit between the header and the declared full
/// length is refused with both lengths; it is never cut short.
pub proof fn lemma_payload_overflow_refused(len: int, ops: Operations)
    requires
        len >= ops.resize_image_full_length >= HEADER_LENGTH,
        ops.set_image_content is Some,
        match ops.set_image_content {
            Some(c) => HEADER_LENGTH + c@.len() > ops.resize_image_full_length,
            None => false,
        },
    ensures
        match ops.set_image_content {
            Some(c) => process_error(len, ops) == Some(
                Error::ImageContentLength {
                    wrong_content_length: c@.len() as usize,
                    wrong_full_length: ops.resize_image_full_length,
                },
            ),
            None => false,
        },
{
}

} // verus!

//! Device profile codec: reads, mutates and re-serialises a printer
//! driver's native configuration block in its raw little-endian byte
//! layout. All offset knowledge lives here; vendor-private bytes pass
//! through untouched.

use vstd::prelude::*;

verus! {

/// Smallest block that holds every field the codec touches.
pub const PROFILE_MIN_LEN: usize = 200;

/// Byte offset of the field-selection mask.
pub const FIELDS_OFFSET: usize = 72;

/// Byte offset of the copy count.
pub const COPIES_OFFSET: usize = 86;

/// Byte offset of the print quality.
pub const QUALITY_OFFSET: usize = 90;

/// Byte offset of the vertical resolution.
pub const YRES_OFFSET: usize = 96;

/// Byte offset of the media type.
pub const MEDIA_OFFSET: usize = 196;

/// Field-selection bit for the copy count.
pub const DM_COPIES: u32 = 0x0100;

/// Field-selection bit for the print quality.
pub const DM_PRINTQUALITY: u32 = 0x0400;

/// Field-selection bit for the vertical resolution.
pub const DM_YRESOLUTION: u32 = 0x2000;

/// Field-selection bit for the media type.
pub const DM_MEDIATYPE: u32 = 0x08000000;

/// All four bits the quality mutation switches on.
pub const SETTINGS_MASK: u32 = 0x0100 | 0x0400 | 0x2000 | 0x08000000;

/// Dots per inch requested on the high-fidelity path.
pub const TARGET_DPI: u16 = 600;

/// Vendor media-type code for premium presentation matte stock.
pub const TARGET_MEDIA_TYPE: u32 = 258;

/// Value of two bytes read little-endian.
pub open spec fn le16(b0: u8, b1: u8) -> u16 {
    (b0 + 256 * b1) as u16
}

/// Value of four bytes read little-endian.
pub open spec fn le32(b0: u8, b1: u8, b2: u8, b3: u8) -> u32 {
    (b0 + 256 * b1 + 65536 * b2 + 16777216 * b3) as u32
}

/// Whether byte `i` of the block belongs to a field this codec owns.
pub open spec fn is_field_byte(i: int) -> bool {
    (FIELDS_OFFSET <= i < FIELDS_OFFSET + 4) || (COPIES_OFFSET <= i < COPIES_OFFSET + 2) || (
    QUALITY_OFFSET <= i < QUALITY_OFFSET + 2) || (YRES_OFFSET <= i < YRES_OFFSET + 2) || (
    MEDIA_OFFSET <= i < MEDIA_OFFSET + 4)
}

/// A printer driver's configuration block with the fields the engine
/// reads and writes decoded, and the full raw block kept beside them.
/// The two-byte fields are stored unsigned; the driver reads them as
/// signed shorts, which agrees for every value this codec writes.
#[verifier::ext_equal]
pub struct DeviceProfile {
    /// Field-selection mask: which fields the driver should honour.
    pub fields_mask: u32,
    /// Requested number of copies.
    pub copies: u16,
    /// Requested print quality.
    pub print_quality: u16,
    /// Requested vertical resolution.
    pub y_resolution: u16,
    /// Requested media type.
    pub media_type: u32,
    /// The complete block as fetched from the driver.
    pub raw: Vec<u8>,
}

/// The profile after the quality mutation: the four field-selection
/// bits switched on, target resolution and media, the asked copies,
/// and the raw block untouched.
pub open spec fn with_print_settings(p: DeviceProfile, copies: u16) -> DeviceProfile {
    DeviceProfile {
        fields_mask: p.fields_mask | SETTINGS_MASK,
        copies,
        print_quality: TARGET_DPI,
        y_resolution: TARGET_DPI,
        media_type: TARGET_MEDIA_TYPE,
        raw: p.raw,
    }
}

impl DeviceProfile {
    /// A block large enough to hold every field this codec owns.
    pub open spec fn wf(self) -> bool {
        PROFILE_MIN_LEN <= self.raw@.len()
    }

    /// The decoded fields agree with the raw block.
    pub open spec fn decodes(self, raw: Seq<u8>) -> bool {
        &&& self.raw@ == raw
        &&& self.fields_mask == le32(
            raw[FIELDS_OFFSET as int],
            raw[FIELDS_OFFSET + 1],
            raw[FIELDS_OFFSET + 2],
            raw[FIELDS_OFFSET + 3],
        )
        &&& self.copies == le16(raw[COPIES_OFFSET as int], raw[COPIES_OFFSET + 1])
        &&& self.print_quality == le16(raw[QUALITY_OFFSET as int], raw[QUALITY_OFFSET + 1])
        &&& self.y_resolution == le16(raw[YRES_OFFSET as int], raw[YRES_OFFSET + 1])
        &&& self.media_type == le32(
            raw[MEDIA_OFFSET as int],
            raw[MEDIA_OFFSET + 1],
            raw[MEDIA_OFFSET + 2],
            raw[MEDIA_OFFSET + 3],
        )
    }

    /// Decodes a raw configuration block. Blocks too small to hold the
    /// known fields are rejected.
    pub fn parse(raw: Vec<u8>) -> (r: Option<DeviceProfile>)
        ensures
            r is None <==> raw@.len() < PROFILE_MIN_LEN,
            r matches Some(p) ==> p.decodes(raw@) && p.wf(),
    {
        if raw.len() < PROFILE_MIN_LEN {
            return None;
        }
        let fields_mask = read_u32_le(&raw, FIELDS_OFFSET);
        let copies = read_u16_le(&raw, COPIES_OFFSET);
        let print_quality = read_u16_le(&raw, QUALITY_OFFSET);
        let y_resolution = read_u16_le(&raw, YRES_OFFSET);
        let media_type = read_u32_le(&raw, MEDIA_OFFSET);
        Some(
            DeviceProfile {
                fields_mask,
                copies,
                print_quality,
                y_resolution,
                media_type,
                raw,
            },
        )
    }

    /// Mutates the profile to request the target resolution, premium
    /// media and the asked copy count, switching the matching
    /// field-selection bits on. The raw block is left for `serialize`.
    pub fn apply_print_settings(&mut self, copies: u16)
        requires
            1 <= copies <= 0x7FFF,
        ensures
            *final(self) == with_print_settings(*old(self), copies),
    {
        self.fields_mask = self.fields_mask | SETTINGS_MASK;
        self.copies = copies;
        self.print_quality = TARGET_DPI;
        self.y_resolution = TARGET_DPI;
        self.media_type = TARGET_MEDIA_TYPE;
    }

    /// Writes the decoded fields back into a copy of the raw block,
    /// leaving every vendor-private byte as fetched.
    pub fn serialize(&self) -> (out: Vec<u8>)
        requires
            self.wf(),
        ensures
            out@.len() == self.raw@.len(),
            le32(
                out@[FIELDS_OFFSET as int],
                out@[FIELDS_OFFSET + 1],
                out@[FIELDS_OFFSET + 2],
                out@[FIELDS_OFFSET + 3],
            ) == self.fields_mask,
            le16(out@[COPIES_OFFSET as int], out@[COPIES_OFFSET + 1]) == self.copies,
            le16(out@[QUALITY_OFFSET as int], out@[QUALITY_OFFSET + 1]) == self.print_quality,
            le16(out@[YRES_OFFSET as int], out@[YRES_OFFSET + 1]) == self.y_resolution,
            le32(
                out@[MEDIA_OFFSET as int],
                out@[MEDIA_OFFSET + 1],
                out@[MEDIA_OFFSET + 2],
                out@[MEDIA_OFFSET + 3],
            ) == self.media_type,
            forall|i: int| 0 <= i < out@.len() && !is_field_byte(i) ==> out@[i] == self.raw@[i],
    {
        let mut out = copy_bytes(&self.raw);
        write_u32_le(&mut out, FIELDS_OFFSET, self.fields_mask);
        write_u16_le(&mut out, COPIES_OFFSET, self.copies);
        write_u16_le(&mut out, QUALITY_OFFSET, self.print_quality);
        write_u16_le(&mut out, YRES_OFFSET, self.y_resolution);
        write_u32_le(&mut out, MEDIA_OFFSET, self.media_type);
        out
    }
}

/// Two bytes encode a sixteen-bit value uniquely.
proof fn lemma_le16_unique(a0: u8, a1: u8, b0: u8, b1: u8)
    requires
        le16(a0, a1) == le16(b0, b1),
    ensures
        a0 == b0,
        a1 == b1,
{
    assert(a0 + 256 * a1 == b0 + 256 * b1);
    assert(a0 == b0 && a1 == b1) by (nonlinear_arith)
        requires
            0 <= a0 < 256,
            0 <= b0 < 256,
            0 <= a1,
            0 <= b1,
            a0 + 256 * a1 == b0 + 256 * b1,
    ;
}

/// Four bytes encode a thirty-two-bit value uniquely.
proof fn lemma_le32_unique(a0: u8, a1: u8, a2: u8, a3: u8, b0: u8, b1: u8, b2: u8, b3: u8)
    requires
        le32(a0, a1, a2, a3) == le32(b0, b1, b2, b3),
    ensures
        a0 == b0,
        a1 == b1,
        a2 == b2,
        a3 == b3,
{
    let ka = a1 + 256 * a2 + 65536 * a3;
    let kb = b1 + 256 * b2 + 65536 * b3;
    assert(a0 + 256 * ka == b0 + 256 * kb);
    assert(a0 == b0 && ka == kb) by (nonlinear_arith)
        requires
            0 <= a0 < 256,
            0 <= b0 < 256,
            0 <= ka,
            0 <= kb,
            a0 + 256 * ka == b0 + 256 * kb,
    ;
    assert(a1 == b1 && a2 + 256 * a3 == b2 + 256 * b3) by (nonlinear_arith)
        requires
            0 <= a1 < 256,
            0 <= b1 < 256,
            0 <= a2 + 256 * a3,
            0 <= b2 + 256 * b3,
            a1 + 256 * (a2 + 256 * a3) == b1 + 256 * (b2 + 256 * b3),
    ;
    assert(a2 == b2 && a3 == b3) by (nonlinear_arith)
        requires
            0 <= a2 < 256,
            0 <= b2 < 256,
            0 <= a3,
            0 <= b3,
            a2 + 256 * a3 == b2 + 256 * b3,
    ;
}

/// What `configure_profile` promises of its output, written over the
/// input and output blocks alone.
pub open spec fn configured_from(raw: Seq<u8>, out: Seq<u8>, copies: u16) -> bool {
    &&& out.len() == raw.len()
    &&& PROFILE_MIN_LEN <= raw.len()
    &&& le32(
        out[FIELDS_OFFSET as int],
        out[FIELDS_OFFSET + 1],
        out[FIELDS_OFFSET + 2],
        out[FIELDS_OFFSET + 3],
    ) == le32(
        raw[FIELDS_OFFSET as int],
        raw[FIELDS_OFFSET + 1],
        raw[FIELDS_OFFSET + 2],
        raw[FIELDS_OFFSET + 3],
    ) | SETTINGS_MASK
    &&& le16(out[COPIES_OFFSET as int], out[COPIES_OFFSET + 1]) == copies
    &&& le16(out[QUALITY_OFFSET as int], out[QUALITY_OFFSET + 1]) == TARGET_DPI
    &&& le16(out[YRES_OFFSET as int], out[YRES_OFFSET + 1]) == TARGET_DPI
    &&& le32(
        out[MEDIA_OFFSET as int],
        out[MEDIA_OFFSET + 1],
        out[MEDIA_OFFSET + 2],
        out[MEDIA_OFFSET + 3],
    ) == TARGET_MEDIA_TYPE
    &&& forall|i: int| 0 <= i < out.len() && !is_field_byte(i) ==> out[i] == raw[i]
}

/// The whole mutation sequence is idempotent at the byte level:
/// configuring an already configured block reproduces it exactly, so
/// fetching, mutating and re-validating twice in a row hands the
/// driver the same block with the target fields both times.
pub proof fn lemma_configure_idempotent(raw: Seq<u8>, once: Seq<u8>, twice: Seq<u8>, copies: u16)
    requires
        configured_from(raw, once, copies),
        configured_from(once, twice, copies),
    ensures
        twice == once,
{
    let m = le32(
        raw[FIELDS_OFFSET as int],
        raw[FIELDS_OFFSET + 1],
        raw[FIELDS_OFFSET + 2],
        raw[FIELDS_OFFSET + 3],
    );
    assert((m | 0x08002500) | 0x08002500 == m | 0x08002500) by (bit_vector);
    assert(0x0100u32 | 0x0400 | 0x2000 | 0x08000000 == 0x08002500) by (bit_vector);
    lemma_le32_unique(
        twice[FIELDS_OFFSET as int],
        twice[FIELDS_OFFSET + 1],
        twice[FIELDS_OFFSET + 2],
        twice[FIELDS_OFFSET + 3],
        once[FIELDS_OFFSET as int],
        once[FIELDS_OFFSET + 1],
        once[FIELDS_OFFSET + 2],
        once[FIELDS_OFFSET + 3],
    );
    lemma_le16_unique(
        twice[COPIES_OFFSET as int],
        twice[COPIES_OFFSET + 1],
        once[COPIES_OFFSET as int],
        once[COPIES_OFFSET + 1],
    );
    lemma_le16_unique(
        twice[QUALITY_OFFSET as int],
        twice[QUALITY_OFFSET + 1],
        once[QUALITY_OFFSET as int],
        once[QUALITY_OFFSET + 1],
    );
    lemma_le16_unique(
        twice[YRES_OFFSET as int],
        twice[YRES_OFFSET + 1],
        once[YRES_OFFSET as int],
        once[YRES_OFFSET + 1],
    );
    lemma_le32_unique(
        twice[MEDIA_OFFSET as int],
        twice[MEDIA_OFFSET + 1],
        twice[MEDIA_OFFSET + 2],
        twice[MEDIA_OFFSET + 3],
        once[MEDIA_OFFSET as int],
        once[MEDIA_OFFSET + 1],
        once[MEDIA_OFFSET + 2],
        once[MEDIA_OFFSET + 3],
    );
    assert forall|i: int| 0 <= i < twice.len() implies twice[i] == once[i] by {
        if !is_field_byte(i) {
            assert(twice[i] == once[i]);
        }
    }
    assert(twice =~= once);
}

/// The quality mutation is idempotent: applying it to a profile that
/// already carries the target settings changes nothing.
pub proof fn lemma_print_settings_idempotent(p: DeviceProfile, copies: u16)
    ensures
        with_print_settings(with_print_settings(p, copies), copies) == with_print_settings(
            p,
            copies,
        ),
{
    let m = p.fields_mask;
    assert(0x0100u32 | 0x0400 | 0x2000 | 0x08000000 == 0x08002500) by (bit_vector);
    assert((m | 0x08002500) | 0x08002500 == m | 0x08002500) by (bit_vector);
    assert(with_print_settings(with_print_settings(p, copies), copies) =~= with_print_settings(
        p,
        copies,
    ));
}

/// Reads two bytes little-endian.
fn read_u16_le(raw: &Vec<u8>, off: usize) -> (r: u16)
    requires
        off + 2 <= raw@.len(),
    ensures
        r == le16(raw@[off as int], raw@[off + 1]),
{
    let n = raw.len();
    (raw[off] as u16) + 256 * (raw[off + 1] as u16)
}

/// Reads four bytes little-endian.
fn read_u32_le(raw: &Vec<u8>, off: usize) -> (r: u32)
    requires
        off + 4 <= raw@.len(),
    ensures
        r == le32(raw@[off as int], raw@[off + 1], raw@[off + 2], raw@[off + 3]),
{
    let n = raw.len();
    (raw[off] as u32) + 256 * (raw[off + 1] as u32) + 65536 * (raw[off + 2] as u32) + 16777216 * (
    raw[off + 3] as u32)
}

/// Writes two bytes little-endian.
fn write_u16_le(raw: &mut Vec<u8>, off: usize, v: u16)
    requires
        off + 2 <= old(raw)@.len(),
    ensures
        final(raw)@.len() == old(raw)@.len(),
        le16(final(raw)@[off as int], final(raw)@[off + 1]) == v,
        forall|i: int|
            0 <= i < old(raw)@.len() && !(off <= i < off + 2) ==> final(raw)@[i] == old(raw)@[i],
{
    let n = raw.len();
    raw.set(off, (v % 256) as u8);
    raw.set(off + 1, (v / 256) as u8);
}

/// Writes four bytes little-endian.
fn write_u32_le(raw: &mut Vec<u8>, off: usize, v: u32)
    requires
        off + 4 <= old(raw)@.len(),
    ensures
        final(raw)@.len() == old(raw)@.len(),
        le32(
            final(raw)@[off as int],
            final(raw)@[off + 1],
            final(raw)@[off + 2],
            final(raw)@[off + 3],
        ) == v,
        forall|i: int|
            0 <= i < old(raw)@.len() && !(off <= i < off + 4) ==> final(raw)@[i] == old(raw)@[i],
{
    let n = raw.len();
    raw.set(off, (v % 256) as u8);
    raw.set(off + 1, ((v / 256) % 256) as u8);
    raw.set(off + 2, ((v / 65536) % 256) as u8);
    raw.set(off + 3, (v / 16777216) as u8);
}

/// Copies a byte vector.
fn copy_bytes(src: &Vec<u8>) -> (out: Vec<u8>)
    ensures
        out@ == src@,
{
    let mut out: Vec<u8> = Vec::new();
    let n = src.len();
    let mut i: usize = 0;
    while i < n
        invariant
            n == src@.len(),
            i <= n,
            out@ == src@.take(i as int),
        decreases n - i,
    {
        out.push(src[i]);
        i += 1;
        proof {
            assert(out@ =~= src@.take(i as int));
        }
    }
    proof {
        assert(src@.take(n as int) =~= src@);
    }
    out
}

/// Configures a freshly fetched raw block for the high-fidelity path:
/// decode, request the target settings, and re-serialise. Rejected
/// exactly when the block is too small for the known field layout.
pub fn configure_profile(raw: Vec<u8>, copies: u16) -> (r: Option<Vec<u8>>)
    requires
        1 <= copies <= 0x7FFF,
    ensures
        r is None <==> raw@.len() < PROFILE_MIN_LEN,
        r matches Some(out) ==> configured_from(raw@, out@, copies),
{
    let ghost raw0 = raw@;
    match DeviceProfile::parse(raw) {
        None => None,
        Some(mut p) => {
            p.apply_print_settings(copies);
            Some(p.serialize())
        },
    }
}

} // verus!

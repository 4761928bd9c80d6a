//! The record that the producer publishes, raw and decoded.

use vstd::prelude::*;
use crate::error::MumbleLinkHandlerError;
use crate::layout::{
    avatar_offset, camera_offset, context_len_offset, context_offset, description_offset,
    identity_offset, le_u32_at, lemma_u32_image_of_read, lemma_u32_reads_back,
    lemma_vector_image_of_read, lemma_vector_reads_back, lemma_wide_units_image_of_read,
    lemma_wide_units_read_back, name_offset, raw_size, read_bytes, read_u32, read_vector,
    read_wide_units, record_size, u32_image, ui_tick_offset, ui_version_offset, unit_bytes,
    units_fit, vector_at, vector_image, wide_units_at, wide_units_image,
};
use crate::wide_text::{wchar_t_to_string, wide_text, WideEncoding};

verus! {

/// Three dimensional vector. Each component is the bit pattern of an IEEE 754
/// single-precision number, as the producer stored it.
pub type Vector3D = [u32; 3];

/// Character position in a left-handed coordinate system, in meters.
#[derive(Copy, Clone, Debug, PartialEq, Eq)]
pub struct Position {
    /// The character's position in space.
    pub position: Vector3D,
    /// A unit vector pointing out of the character's eyes.
    pub front: Vector3D,
    /// A unit vector pointing out of the top of the character's head.
    pub top: Vector3D,
}

/// What a `Position` holds.
pub ghost struct PositionView {
    pub position: Seq<u32>,
    pub front: Seq<u32>,
    pub top: Seq<u32>,
}

impl View for Position {
    type V = PositionView;

    open spec fn view(&self) -> PositionView {
        PositionView { position: self.position@, front: self.front@, top: self.top@ }
    }
}

/// The record as the producer laid it out, field for field. Wide characters are kept
/// as code units, 16-bit ones widened.
#[derive(Copy, Clone, Debug, PartialEq, Eq)]
pub struct CMumbleLinkData {
    pub ui_version: u32,
    pub ui_tick: u32,
    pub avatar: Position,
    pub name: [u32; 256],
    pub camera: Position,
    pub identity: [u32; 256],
    pub context_len: u32,
    pub context: [u8; 256],
    pub description: [u32; 2048],
    /// How the code units of the three text buffers are to be read.
    pub wide: WideEncoding,
}

/// What a `CMumbleLinkData` holds.
pub ghost struct CMumbleLinkDataView {
    pub ui_version: u32,
    pub ui_tick: u32,
    pub avatar: PositionView,
    pub name: Seq<u32>,
    pub camera: PositionView,
    pub identity: Seq<u32>,
    pub context_len: u32,
    pub context: Seq<u8>,
    pub description: Seq<u32>,
    pub wide: WideEncoding,
}

impl View for CMumbleLinkData {
    type V = CMumbleLinkDataView;

    open spec fn view(&self) -> CMumbleLinkDataView {
        CMumbleLinkDataView {
            ui_version: self.ui_version,
            ui_tick: self.ui_tick,
            avatar: self.avatar@,
            name: self.name@,
            camera: self.camera@,
            identity: self.identity@,
            context_len: self.context_len,
            context: self.context@,
            description: self.description@,
            wide: self.wide,
        }
    }
}

/// The decoded record: numbers widened, text buffers turned into strings.
#[derive(Clone, Debug, PartialEq, Eq)]
pub struct MumbleLinkData {
    pub ui_version: i64,
    pub ui_tick: i64,
    pub avatar: Position,
    pub name: String,
    pub camera: Position,
    pub identity: String,
    pub context_len: i64,
    pub context: [u8; 256],
    pub description: String,
}

/// What a `MumbleLinkData` holds.
pub ghost struct MumbleLinkDataView {
    pub ui_version: int,
    pub ui_tick: int,
    pub avatar: PositionView,
    pub name: Seq<char>,
    pub camera: PositionView,
    pub identity: Seq<char>,
    pub context_len: int,
    pub context: Seq<u8>,
    pub description: Seq<char>,
}

impl View for MumbleLinkData {
    type V = MumbleLinkDataView;

    open spec fn view(&self) -> MumbleLinkDataView {
        MumbleLinkDataView {
            ui_version: self.ui_version as int,
            ui_tick: self.ui_tick as int,
            avatar: self.avatar@,
            name: self.name@,
            camera: self.camera@,
            identity: self.identity@,
            context_len: self.context_len as int,
            context: self.context@,
            description: self.description@,
        }
    }
}

/// The position block whose 36 bytes start at `at`.
pub open spec fn position_at(bytes: Seq<u8>, at: int) -> PositionView {
    PositionView {
        position: vector_at(bytes, at),
        front: vector_at(bytes, at + 12),
        top: vector_at(bytes, at + 24),
    }
}

/// The record that lies at the start of `bytes`, which hold at least `raw_size(wide)`
/// bytes.
pub open spec fn parsed(bytes: Seq<u8>, wide: WideEncoding) -> CMumbleLinkDataView {
    CMumbleLinkDataView {
        ui_version: le_u32_at(bytes, ui_version_offset()) as u32,
        ui_tick: le_u32_at(bytes, ui_tick_offset()) as u32,
        avatar: position_at(bytes, avatar_offset()),
        name: wide_units_at(bytes, name_offset(), 256, wide),
        camera: position_at(bytes, camera_offset(wide)),
        identity: wide_units_at(bytes, identity_offset(wide), 256, wide),
        context_len: le_u32_at(bytes, context_len_offset(wide)) as u32,
        context: bytes.subrange(context_offset(wide), context_offset(wide) + 256),
        description: wide_units_at(bytes, description_offset(wide), 2048, wide),
        wide,
    }
}

/// The decoded form of a raw record.
pub open spec fn decoded(raw: CMumbleLinkDataView) -> MumbleLinkDataView {
    MumbleLinkDataView {
        ui_version: raw.ui_version as int,
        ui_tick: raw.ui_tick as int,
        avatar: raw.avatar,
        name: wide_text(raw.name, raw.wide),
        camera: raw.camera,
        identity: wide_text(raw.identity, raw.wide),
        context_len: raw.context_len as int,
        context: raw.context,
        description: wide_text(raw.description, raw.wide),
    }
}

/// Reads the position block at `at`.
fn read_position(bytes: &[u8], at: usize) -> (p: Position)
    requires
        at + 36 <= bytes.len(),
    ensures
        p@ == position_at(bytes@, at as int),
{
    Position {
        position: read_vector(bytes, at),
        front: read_vector(bytes, at + 12),
        top: read_vector(bytes, at + 24),
    }
}

impl CMumbleLinkData {
    /// Reads the record from a copy of the producer's memory. The copy may be longer
    /// than the record; one that is shorter holds no record.
    pub fn from_bytes(bytes: &[u8], wide: WideEncoding) -> (raw: Option<CMumbleLinkData>)
        ensures
            raw is Some <==> bytes@.len() >= raw_size(wide),
            raw matches Some(r) ==> r@ == parsed(bytes@, wide) && r@.well_formed(),
    {
        if bytes.len() < record_size(wide) {
            return None;
        }
        proof {
            lemma_image_of_parsed(bytes@, wide);
        }
        let w: usize = unit_bytes(wide);
        let raw = CMumbleLinkData {
            ui_version: read_u32(bytes, 0),
            ui_tick: read_u32(bytes, 4),
            avatar: read_position(bytes, 8),
            name: read_wide_units::<256>(bytes, 44, wide),
            camera: read_position(bytes, 44 + 256 * w),
            identity: read_wide_units::<256>(bytes, 80 + 256 * w, wide),
            context_len: read_u32(bytes, 80 + 512 * w),
            context: read_bytes::<256>(bytes, 84 + 512 * w),
            description: read_wide_units::<2048>(bytes, 340 + 512 * w, wide),
            wide,
        };
        Some(raw)
    }

    /// Decodes the record: the numbers and vectors as they are, each text buffer up to
    /// its first zero unit as a string.
    pub fn to_mumble_link_data(self) -> (data: MumbleLinkData)
        ensures
            data@ == decoded(self@),
    {
        MumbleLinkData {
            ui_version: self.ui_version as i64,
            ui_tick: self.ui_tick as i64,
            avatar: self.avatar,
            name: wchar_t_to_string(&self.name, self.wide),
            camera: self.camera,
            identity: wchar_t_to_string(&self.identity, self.wide),
            context_len: self.context_len as i64,
            context: self.context,
            description: wchar_t_to_string(&self.description, self.wide),
        }
    }
}

/// Access to the context, whose layout only the game knows.
pub trait MumbleLinkDataReader {
    /// The 256 bytes of context.
    spec fn context_of(&self) -> [u8; 256];

    /// Hands the context to `f` and returns what `f` makes of it.
    fn read_context<T, F: Fn([u8; 256]) -> T>(&self, f: F) -> (value: T)
        requires
            f.requires((self.context_of(),)),
        ensures
            f.ensures((self.context_of(),), value),
    ;
}

impl MumbleLinkDataReader for MumbleLinkData {
    open spec fn context_of(&self) -> [u8; 256] {
        self.context
    }

    fn read_context<T, F: Fn([u8; 256]) -> T>(&self, f: F) -> (value: T) {
        f(self.context)
    }
}

impl MumbleLinkDataReader for CMumbleLinkData {
    open spec fn context_of(&self) -> [u8; 256] {
        self.context
    }

    fn read_context<T, F: Fn([u8; 256]) -> T>(&self, f: F) -> (value: T) {
        f(self.context)
    }
}

/// What reading gives, as a raw record: nothing unless a region is mapped and the copy
/// of it holds a whole record.
pub open spec fn raw_outcome(readable: bool, region: Seq<u8>, wide: WideEncoding) -> Result<
    CMumbleLinkDataView,
    MumbleLinkHandlerError,
> {
    if readable && region.len() >= raw_size(wide) {
        Ok(parsed(region, wide))
    } else {
        Err(MumbleLinkHandlerError::UnableToRead)
    }
}

/// What reading gives, decoded.
pub open spec fn read_outcome(readable: bool, region: Seq<u8>, wide: WideEncoding) -> Result<
    MumbleLinkDataView,
    MumbleLinkHandlerError,
> {
    match raw_outcome(readable, region, wide) {
        Ok(raw) => Ok(decoded(raw)),
        Err(e) => Err(e),
    }
}

/// Reads the record out of a copy of the mapped region. The caller copies
/// `raw_size(self.encoding())` bytes from the mapped address, without regard to
/// alignment, and hands them over.
pub trait MumbleLinkReader {
    /// Whether a region is mapped.
    spec fn readable(&self) -> bool;

    /// How the producer encodes wide characters.
    spec fn encoding(&self) -> WideEncoding;

    /// Reads into the decoded struct.
    fn read(&self, region: &[u8]) -> (data: Result<MumbleLinkData, MumbleLinkHandlerError>)
        ensures
            match data {
                Ok(d) => read_outcome(self.readable(), region@, self.encoding()) == Ok::<
                    MumbleLinkDataView,
                    MumbleLinkHandlerError,
                >(d@),
                Err(e) => read_outcome(self.readable(), region@, self.encoding()) == Err::<
                    MumbleLinkDataView,
                    MumbleLinkHandlerError,
                >(e),
            },
    ;

    /// Reads into the raw struct.
    fn read_c(&self, region: &[u8]) -> (raw: Result<CMumbleLinkData, MumbleLinkHandlerError>)
        ensures
            match raw {
                Ok(r) => raw_outcome(self.readable(), region@, self.encoding()) == Ok::<
                    CMumbleLinkDataView,
                    MumbleLinkHandlerError,
                >(r@),
                Err(e) => raw_outcome(self.readable(), region@, self.encoding()) == Err::<
                    CMumbleLinkDataView,
                    MumbleLinkHandlerError,
                >(e),
            },
    ;
}

/// The 36 bytes that a position block takes in memory.
pub open spec fn position_image(p: PositionView) -> Seq<u8> {
    vector_image(p.position) + vector_image(p.front) + vector_image(p.top)
}

impl PositionView {
    /// Whether each of the three vectors has three components.
    pub open spec fn well_formed(self) -> bool {
        self.position.len() == 3 && self.front.len() == 3 && self.top.len() == 3
    }
}

impl CMumbleLinkDataView {
    /// Whether every buffer has its length and every wide character fits the width
    /// of the encoding. The lengths hold of every `CMumbleLinkData`.
    pub open spec fn well_formed(self) -> bool {
        &&& self.avatar.well_formed()
        &&& self.camera.well_formed()
        &&& self.name.len() == 256
        &&& self.identity.len() == 256
        &&& self.context.len() == 256
        &&& self.description.len() == 2048
        &&& units_fit(self.name, self.wide)
        &&& units_fit(self.identity, self.wide)
        &&& units_fit(self.description, self.wide)
    }

    /// The bytes that the record takes in the producer's memory.
    pub open spec fn image(self) -> Seq<u8> {
        u32_image(self.ui_version) + u32_image(self.ui_tick) + position_image(self.avatar)
            + wide_units_image(self.name, self.wide) + position_image(self.camera)
            + wide_units_image(self.identity, self.wide) + u32_image(self.context_len)
            + self.context + wide_units_image(self.description, self.wide)
    }
}

/// A position block is read back from where its image lies.
pub proof fn lemma_position_reads_back(bytes: Seq<u8>, at: int, p: PositionView)
    requires
        0 <= at,
        at + 36 <= bytes.len(),
        p.well_formed(),
        bytes.subrange(at, at + 36) == position_image(p),
    ensures
        position_at(bytes, at) == p,
{
    let image = bytes.subrange(at, at + 36);
    assert(bytes.subrange(at, at + 12) =~= image.subrange(0, 12));
    assert(bytes.subrange(at + 12, at + 24) =~= image.subrange(12, 24));
    assert(bytes.subrange(at + 24, at + 36) =~= image.subrange(24, 36));
    assert(image.subrange(0, 12) =~= vector_image(p.position));
    assert(image.subrange(12, 24) =~= vector_image(p.front));
    assert(image.subrange(24, 36) =~= vector_image(p.top));
    lemma_vector_reads_back(bytes, at, p.position);
    lemma_vector_reads_back(bytes, at + 12, p.front);
    lemma_vector_reads_back(bytes, at + 24, p.top);
}

/// Every raw record has the lengths that `well_formed` asks for.
pub proof fn lemma_record_has_its_lengths(raw: CMumbleLinkData)
    ensures
        raw@.avatar.well_formed(),
        raw@.camera.well_formed(),
        raw@.name.len() == 256,
        raw@.identity.len() == 256,
        raw@.context.len() == 256,
        raw@.description.len() == 2048,
{
}

/// Reading looks at the record's bytes and at nothing behind them: two copies that
/// agree on those bytes give the same raw record, and so the same decoded one.
pub proof fn lemma_same_bytes_same_record(a: Seq<u8>, b: Seq<u8>, wide: WideEncoding)
    requires
        a.len() >= raw_size(wide),
        b.len() >= raw_size(wide),
        a.subrange(0, raw_size(wide)) == b.subrange(0, raw_size(wide)),
    ensures
        parsed(a, wide) == parsed(b, wide),
        decoded(parsed(a, wide)) == decoded(parsed(b, wide)),
{
    let n = raw_size(wide);
    assert forall|i: int| 0 <= i < n implies a[i] == b[i] by {
        assert(a.subrange(0, n)[i] == b.subrange(0, n)[i]);
    }
    let pa = parsed(a, wide);
    let pb = parsed(b, wide);
    assert(pa.avatar.position =~= pb.avatar.position);
    assert(pa.avatar.front =~= pb.avatar.front);
    assert(pa.avatar.top =~= pb.avatar.top);
    assert(pa.camera.position =~= pb.camera.position);
    assert(pa.camera.front =~= pb.camera.front);
    assert(pa.camera.top =~= pb.camera.top);
    assert(pa.name =~= pb.name);
    assert(pa.identity =~= pb.identity);
    assert(pa.context =~= pb.context);
    assert(pa.description =~= pb.description);
}

/// A record is read back from its image, whatever follows the image in memory.
pub proof fn lemma_image_reads_back(raw: CMumbleLinkDataView, tail: Seq<u8>)
    requires
        raw.well_formed(),
    ensures
        raw.image().len() == raw_size(raw.wide),
        parsed(raw.image() + tail, raw.wide) == raw,
{
    let wide = raw.wide;
    let bytes = raw.image() + tail;

    assert(bytes.subrange(0, 4) =~= u32_image(raw.ui_version));
    lemma_u32_reads_back(bytes, 0, raw.ui_version);
    assert(bytes.subrange(4, 8) =~= u32_image(raw.ui_tick));
    lemma_u32_reads_back(bytes, 4, raw.ui_tick);
    assert(bytes.subrange(8, 44) =~= position_image(raw.avatar));
    lemma_position_reads_back(bytes, 8, raw.avatar);
    assert(bytes.subrange(44, camera_offset(wide)) =~= wide_units_image(raw.name, wide));
    lemma_wide_units_read_back(bytes, 44, raw.name, wide);
    assert(bytes.subrange(camera_offset(wide), identity_offset(wide)) =~= position_image(
        raw.camera,
    ));
    lemma_position_reads_back(bytes, camera_offset(wide), raw.camera);
    assert(bytes.subrange(identity_offset(wide), context_len_offset(wide)) =~= wide_units_image(
        raw.identity,
        wide,
    ));
    lemma_wide_units_read_back(bytes, identity_offset(wide), raw.identity, wide);
    assert(bytes.subrange(context_len_offset(wide), context_offset(wide)) =~= u32_image(
        raw.context_len,
    ));
    lemma_u32_reads_back(bytes, context_len_offset(wide), raw.context_len);
    assert(bytes.subrange(context_offset(wide), context_offset(wide) + 256) =~= raw.context);
    assert(bytes.subrange(description_offset(wide), raw_size(wide)) =~= wide_units_image(
        raw.description,
        wide,
    ));
    lemma_wide_units_read_back(bytes, description_offset(wide), raw.description, wide);
}

/// The image of the position block that was read at `at` is the 36 bytes there.
pub proof fn lemma_position_image_of_read(bytes: Seq<u8>, at: int)
    requires
        0 <= at,
        at + 36 <= bytes.len(),
    ensures
        position_at(bytes, at).well_formed(),
        position_image(position_at(bytes, at)) == bytes.subrange(at, at + 36),
{
    lemma_vector_image_of_read(bytes, at);
    lemma_vector_image_of_read(bytes, at + 12);
    lemma_vector_image_of_read(bytes, at + 24);
}

/// What was read is well formed, and its image is the bytes it was read from: no two
/// regions that differ within the record give the same raw record.
pub proof fn lemma_image_of_parsed(bytes: Seq<u8>, wide: WideEncoding)
    requires
        bytes.len() >= raw_size(wide),
    ensures
        parsed(bytes, wide).well_formed(),
        parsed(bytes, wide).image() == bytes.subrange(0, raw_size(wide)),
{
    lemma_u32_image_of_read(bytes, 0);
    lemma_u32_image_of_read(bytes, 4);
    lemma_position_image_of_read(bytes, 8);
    lemma_wide_units_image_of_read(bytes, 44, 256, wide);
    lemma_position_image_of_read(bytes, camera_offset(wide));
    lemma_wide_units_image_of_read(bytes, identity_offset(wide), 256, wide);
    lemma_u32_image_of_read(bytes, context_len_offset(wide));
    lemma_wide_units_image_of_read(bytes, description_offset(wide), 2048, wide);
}

/// What the producer wrote is what a reader gets: from a region that holds the image
/// of a record, a mapped handler reads that record, number for number and byte for
/// byte, and its decoded form has the same numbers, the same vectors, the same
/// context, and for each text buffer the text before its first zero unit.
pub proof fn lemma_round_trip(raw: CMumbleLinkDataView, tail: Seq<u8>)
    requires
        raw.well_formed(),
    ensures
        raw_outcome(true, raw.image() + tail, raw.wide) == Ok::<
            CMumbleLinkDataView,
            MumbleLinkHandlerError,
        >(raw),
        read_outcome(true, raw.image() + tail, raw.wide) == Ok::<
            MumbleLinkDataView,
            MumbleLinkHandlerError,
        >(decoded(raw)),
        decoded(raw).ui_version == raw.ui_version,
        decoded(raw).ui_tick == raw.ui_tick,
        decoded(raw).context_len == raw.context_len,
        decoded(raw).avatar == raw.avatar,
        decoded(raw).camera == raw.camera,
        decoded(raw).context == raw.context,
        decoded(raw).name == wide_text(raw.name, raw.wide),
        decoded(raw).identity == wide_text(raw.identity, raw.wide),
        decoded(raw).description == wide_text(raw.description, raw.wide),
{
    lemma_image_reads_back(raw, tail);
}

} // verus!

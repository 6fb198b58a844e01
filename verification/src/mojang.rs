//! Where a skin comes from: which service an identifier is looked up with,
//! what is asked of it, and what stands in when a player's profile gives
//! nothing.

use vstd::prelude::*;
use vstd::string::*;
use vstd::utf8::{decode_utf8, encode_utf8_decode_utf8, valid_utf8};

verus! {

/// Why a skin could not be had.
#[derive(Clone, Copy, Debug, PartialEq, Eq, Structural)]
pub enum DownloadError {
    /// The texture service has no such texture, or the profile names none.
    InvalidTexture,
    /// A service could not be reached, or its answer could not be read.
    FetchError,
    /// The identifier has the length of a profile identifier but is none.
    InvalidUuid,
}

impl DownloadError {
    /// The text that is shown for the error.
    pub open spec fn message(self) -> Seq<char> {
        match self {
            DownloadError::InvalidTexture => "Invalid texture"@,
            DownloadError::FetchError => "Error fetching"@,
            DownloadError::InvalidUuid => "Invalid UUID"@,
        }
    }

    /// The text that is shown for the error.
    pub fn to_string(&self) -> (text: String)
        ensures
            text@ == self.message(),
    {
        match self {
            DownloadError::InvalidTexture => "Invalid texture".to_owned(),
            DownloadError::FetchError => "Error fetching".to_owned(),
            DownloadError::InvalidUuid => "Invalid UUID".to_owned(),
        }
    }
}

/// The number of characters of a profile identifier: a UUID without dashes.
pub const PROFILE_ID_LENGTH: usize = 32;

/// The two kinds of identifier.
#[derive(Clone, Copy, Debug, PartialEq, Eq, Structural)]
pub enum IdKind {
    /// The identifier of a player's profile.
    Profile,
    /// The identifier of a texture.
    Texture,
}

/// An identifier of exactly `PROFILE_ID_LENGTH` characters names a profile,
/// one of any other length a texture.
pub open spec fn id_kind(id: Seq<char>) -> IdKind {
    if id.len() == PROFILE_ID_LENGTH {
        IdKind::Profile
    } else {
        IdKind::Texture
    }
}

/// Tells the kind of an identifier by its length alone.
pub fn classify(id: &str) -> (kind: IdKind)
    ensures
        kind == id_kind(id@),
{
    if id.unicode_len() == PROFILE_ID_LENGTH {
        IdKind::Profile
    } else {
        IdKind::Texture
    }
}

/// Whether `c` is one of `0`-`9`, `a`-`f`, `A`-`F`.
pub open spec fn is_hex_digit(c: char) -> bool {
    ('0' <= c <= '9') || ('a' <= c <= 'f') || ('A' <= c <= 'F')
}

/// The value of a hexadecimal digit.
pub open spec fn hex_digit_value(c: char) -> nat {
    if '0' <= c <= '9' {
        (c as nat - '0' as nat) as nat
    } else if 'a' <= c <= 'f' {
        (c as nat - 'a' as nat + 10) as nat
    } else {
        (c as nat - 'A' as nat + 10) as nat
    }
}

/// The number that a row of hexadecimal digits writes, first digit highest.
pub open spec fn hex_value(digits: Seq<char>) -> nat
    decreases digits.len(),
{
    if digits.len() == 0 {
        0
    } else {
        hex_value(digits.drop_last()) * 16 + hex_digit_value(digits.last())
    }
}

/// The 128 bits of a profile identifier: the number its 32 hexadecimal digits
/// write. An identifier with anything but such digits has none.
pub open spec fn uuid_of(id: Seq<char>) -> Option<u128> {
    if id.len() == PROFILE_ID_LENGTH && forall|k: int| 0 <= k < id.len() ==> is_hex_digit(id[k]) {
        Some(hex_value(id) as u128)
    } else {
        None
    }
}

/// The first number that `digits` hexadecimal digits cannot write.
pub open spec fn hex_limit(digits: nat) -> nat
    decreases digits,
{
    if digits == 0 {
        1
    } else {
        16 * hex_limit((digits - 1) as nat)
    }
}

/// A row of hexadecimal digits writes a number below the limit of its length.
pub proof fn lemma_hex_value_below_limit(digits: Seq<char>)
    requires
        forall|k: int| 0 <= k < digits.len() ==> is_hex_digit(digits[k]),
    ensures
        hex_value(digits) < hex_limit(digits.len()),
    decreases digits.len(),
{
    if digits.len() > 0 {
        lemma_hex_value_below_limit(digits.drop_last());
    }
}

/// The number of a profile identifier fits in 128 bits, so `uuid_of` gives
/// it whole.
pub proof fn lemma_uuid_is_whole(id: Seq<char>)
    requires
        uuid_of(id) is Some,
    ensures
        uuid_of(id) == Some(hex_value(id) as u128),
        hex_value(id) <= u128::MAX,
{
    lemma_hex_value_below_limit(id);
    reveal_with_fuel(hex_limit, 33);
}

/// `uuid::Uuid::parse_str`, then `Uuid::as_u128`, on a string of 32
/// characters. Such a string is a UUID only in the form without dashes: it
/// parses if and only if every character is a hexadecimal digit, of either
/// case, and the value is the number that the digits write.
#[verifier::external_body]
fn parse_uuid(id: &str) -> (r: Option<u128>)
    requires
        id@.len() == PROFILE_ID_LENGTH,
    ensures
        r == uuid_of(id@),
{
    match ::uuid::Uuid::parse_str(id) {
        Ok(uuid) => Some(uuid.as_u128()),
        Err(_) => None,
    }
}

/// The hash that Java gives a UUID: its four 32-bit words, combined by
/// exclusive or.
pub open spec fn java_hash(uuid: u128) -> u32 {
    (((uuid >> 96) ^ (uuid >> 64) ^ (uuid >> 32) ^ uuid) & 0xffff_ffff) as u32
}

/// Computes the hash that Java gives a UUID.
pub fn java_hash_code(uuid: u128) -> (hash: u32)
    ensures
        hash == java_hash(uuid),
{
    let most_sig_bits: u128 = uuid >> 64;
    let least_sig_bits: u128 = uuid & 0xFFFF_FFFF_FFFF_FFFF;
    let hash: u128 = most_sig_bits ^ least_sig_bits;
    let folded: u128 = (hash ^ (hash >> 32)) & 0xFFFF_FFFF;
    assert(folded == ((uuid >> 96) ^ (uuid >> 64) ^ (uuid >> 32) ^ uuid) & 0xffff_ffff
        && folded <= 0xffff_ffff) by (bit_vector)
        requires
            folded == (((uuid >> 64) ^ (uuid & 0xFFFF_FFFF_FFFF_FFFF)) ^ (((uuid >> 64) ^ (uuid
                & 0xFFFF_FFFF_FFFF_FFFF)) >> 32)) & 0xFFFF_FFFF,
    ;
    folded as u32
}

/// The two skins that come with the program.
#[derive(Clone, Copy, Debug, PartialEq, Eq, Structural)]
pub enum DefaultSkin {
    Steve,
    Alex,
}

/// The skin that stands in for a profile: its hash decides, even for Steve
/// and odd for Alex.
pub open spec fn fallback_choice(uuid: u128) -> DefaultSkin {
    if java_hash(uuid) & 1 == 0 {
        DefaultSkin::Steve
    } else {
        DefaultSkin::Alex
    }
}

/// Picks the skin that stands in for the profile `uuid`.
pub fn fallback_skin(uuid: u128) -> (skin: DefaultSkin)
    ensures
        skin == fallback_choice(uuid),
{
    if java_hash_code(uuid) & 1 == 0 {
        DefaultSkin::Steve
    } else {
        DefaultSkin::Alex
    }
}

/// The two skins that come with the program, as the bytes of their image files.
#[derive(Debug, PartialEq, Eq)]
pub struct DefaultSkins {
    pub steve: Vec<u8>,
    pub alex: Vec<u8>,
}

/// The mathematical value of `DefaultSkins`.
pub struct DefaultSkinsView {
    pub steve: Seq<u8>,
    pub alex: Seq<u8>,
}

impl DefaultSkinsView {
    /// The bytes of one of the two skins.
    pub open spec fn bytes(self, skin: DefaultSkin) -> Seq<u8> {
        match skin {
            DefaultSkin::Steve => self.steve,
            DefaultSkin::Alex => self.alex,
        }
    }
}

impl View for DefaultSkins {
    type V = DefaultSkinsView;

    open spec fn view(&self) -> DefaultSkinsView {
        DefaultSkinsView { steve: self.steve@, alex: self.alex@ }
    }
}

impl DefaultSkins {
    /// A copy of the bytes of one of the two skins.
    pub fn get(&self, skin: DefaultSkin) -> (bytes: Vec<u8>)
        ensures
            bytes@ == self@.bytes(skin),
    {
        match skin {
            DefaultSkin::Steve => self.steve.clone(),
            DefaultSkin::Alex => self.alex.clone(),
        }
    }
}

/// The address of the profile of `uuid` at the session service.
pub open spec fn profile_url_of(uuid: Seq<char>) -> Seq<char> {
    "https://sessionserver.mojang.com/session/minecraft/profile/"@ + uuid
}

/// The address of the texture `texture_id` at the texture service.
pub open spec fn texture_url_of(texture_id: Seq<char>) -> Seq<char> {
    "https://textures.minecraft.net/texture/"@ + texture_id
}

/// Builds the address of the profile of `uuid` at the session service.
pub fn profile_url(uuid: &str) -> (url: String)
    ensures
        url@ == profile_url_of(uuid@),
{
    let mut url = "https://sessionserver.mojang.com/session/minecraft/profile/".to_owned();
    url.append(uuid);
    url
}

/// Builds the address of the texture `texture_id` at the texture service.
pub fn texture_url(texture_id: &str) -> (url: String)
    ensures
        url@ == texture_url_of(texture_id@),
{
    let mut url = "https://textures.minecraft.net/texture/".to_owned();
    url.append(texture_id);
    url
}

/// Where the last segment of a path begins: behind its last `/`, or at its
/// start if it has none.
pub open spec fn last_segment_start(path: Seq<char>) -> int
    decreases path.len(),
{
    if path.len() == 0 || path.last() == '/' {
        path.len() as int
    } else {
        last_segment_start(path.drop_last())
    }
}

/// The last segment of a path: what stands behind its last `/`, or all of it
/// if it has none.
pub open spec fn last_segment(path: Seq<char>) -> Seq<char> {
    path.subrange(last_segment_start(path), path.len() as int)
}

/// The last segment begins inside the path, holds no `/`, and either begins
/// the path or stands right behind a `/`.
pub proof fn lemma_last_segment(path: Seq<char>)
    ensures
        0 <= last_segment_start(path) <= path.len(),
        forall|k: int| last_segment_start(path) <= k < path.len() ==> path[k] != '/',
        last_segment_start(path) > 0 ==> path[last_segment_start(path) - 1] == '/',
    decreases path.len(),
{
    if path.len() != 0 && path.last() != '/' {
        let shorter = path.drop_last();
        lemma_last_segment(shorter);
        assert forall|k: int| last_segment_start(path) <= k < path.len() implies path[k]
            != '/' by {
            if k < shorter.len() {
                assert(path[k] == shorter[k]);
            }
        }
    }
}

/// The identifier of the texture that a skin address points to: the last
/// segment of the address.
pub fn texture_id_of(url: &str) -> (id: String)
    ensures
        id@ == last_segment(url@),
        id@.len() <= url@.len(),
        id@ == url@.subrange(url@.len() - id@.len(), url@.len() as int),
        forall|k: int| 0 <= k < id@.len() ==> id@[k] != '/',
        id@.len() < url@.len() ==> url@[url@.len() - id@.len() - 1] == '/',
{
    let len = url.unicode_len();
    let mut start: usize = 0;
    let mut seen: usize = 0;
    for c in it: url.chars()
        invariant
            seen == it.index(),
            it.seq() == url@,
            len == url@.len(),
            start == last_segment_start(url@.take(seen as int)),
    {
        proof {
            let longer = url@.take(seen + 1);
            assert(longer.drop_last() =~= url@.take(seen as int));
        }
        seen = seen + 1;
        if c == '/' {
            start = seen;
        }
    }
    proof {
        assert(url@.take(seen as int) =~= url@);
        lemma_last_segment(url@);
    }
    url.substring_char(start, len).to_owned()
}

/// One entry of a profile: a name and a value.
#[derive(Debug, PartialEq, Eq)]
pub struct ProfileProperty {
    pub name: String,
    pub value: String,
}

/// The mathematical value of a `ProfileProperty`.
pub struct ProfilePropertyView {
    pub name: Seq<char>,
    pub value: Seq<char>,
}

impl View for ProfileProperty {
    type V = ProfilePropertyView;

    open spec fn view(&self) -> ProfilePropertyView {
        ProfilePropertyView { name: self.name@, value: self.value@ }
    }
}

/// The values of a row of properties.
pub open spec fn property_views(properties: Seq<ProfileProperty>) -> Seq<ProfilePropertyView> {
    properties.map_values(|property: ProfileProperty| property@)
}

/// The value of the first property that is called `textures`.
pub open spec fn textures_value(properties: Seq<ProfilePropertyView>) -> Option<Seq<char>>
    decreases properties.len(),
{
    if properties.len() == 0 {
        None
    } else if properties.first().name == "textures"@ {
        Some(properties.first().value)
    } else {
        textures_value(properties.drop_first())
    }
}

/// The bytes that a text in base64 stands for, in the standard alphabet with
/// padding; none where the text is no such encoding.
pub uninterp spec fn base64_decoded(text: Seq<char>) -> Option<Seq<u8>>;

/// The mathematical value of bytes that may be missing.
pub open spec fn bytes_view(bytes: Option<Vec<u8>>) -> Option<Seq<u8>> {
    match bytes {
        Some(bytes) => Some(bytes@),
        None => None,
    }
}

/// `base64::decode`: the bytes that `text` encodes, or nothing where the
/// crate refuses the text. The outcome depends on the text alone.
#[verifier::external_body]
fn base64_decode(text: &str) -> (r: Option<Vec<u8>>)
    ensures
        bytes_view(r) == base64_decoded(text@),
{
    match ::base64::decode(text) {
        Ok(bytes) => Some(bytes),
        Err(_) => None,
    }
}

/// `std::str::from_utf8`: the text that `bytes` hold in UTF-8, or nothing
/// where they are not UTF-8.
#[verifier::external_body]
fn utf8_text(bytes: &[u8]) -> (r: Option<&str>)
    ensures
        r is Some <==> valid_utf8(bytes@),
        r matches Some(text) ==> text.spec_bytes() == bytes@,
{
    match std::str::from_utf8(bytes) {
        Ok(text) => Some(text),
        Err(_) => None,
    }
}

/// The text that a decoded property value holds: the bytes read as UTF-8,
/// or nothing where there are no bytes or they are no UTF-8.
pub open spec fn document_text(decoded: Option<Seq<u8>>) -> Option<Seq<char>> {
    match decoded {
        Some(bytes) => if valid_utf8(bytes) {
            Some(decode_utf8(bytes))
        } else {
            None
        },
        None => None,
    }
}

/// The textures document of a profile: the text that the value of its
/// `textures` property encodes, in base64 and then in UTF-8. A profile without
/// that property, or with a value that is not such an encoding, has none.
pub open spec fn textures_document(properties: Seq<ProfilePropertyView>) -> Option<Seq<char>> {
    match textures_value(properties) {
        Some(value) => document_text(base64_decoded(value)),
        None => None,
    }
}

/// Reads a decoded property value as text.
pub fn read_document(decoded: Option<Vec<u8>>) -> (r: Option<String>)
    ensures
        r is Some <==> document_text(bytes_view(decoded)) is Some,
        r matches Some(document) ==> document_text(bytes_view(decoded)) == Some(document@),
{
    match decoded {
        Some(bytes) => match utf8_text(bytes.as_slice()) {
            Some(text) => {
                proof {
                    encode_utf8_decode_utf8(text@);
                }
                Some(text.to_owned())
            },
            None => None,
        },
        None => None,
    }
}

/// Looks the `textures` property up and decodes its value.
pub fn textures_payload(properties: &Vec<ProfileProperty>) -> (r: Option<String>)
    ensures
        r is Some <==> textures_document(property_views(properties@)) is Some,
        r matches Some(document) ==> textures_document(property_views(properties@)) == Some(
            document@,
        ),
{
    let wanted = "textures".to_owned();
    let ghost all = property_views(properties@);
    let mut k: usize = 0;
    assert(all.skip(0) =~= all);
    while k < properties.len()
        invariant
            k <= properties@.len(),
            wanted@ == "textures"@,
            all == property_views(properties@),
            textures_value(all) == textures_value(all.skip(k as int)),
        decreases properties@.len() - k,
    {
        proof {
            assert(all.skip(k as int).drop_first() =~= all.skip(k + 1));
            assert(all.skip(k as int).first() == properties@[k as int]@);
        }
        if properties[k].name == wanted {
            return read_document(base64_decode(properties[k].value.as_str()));
        }
        k = k + 1;
    }
    None
}

/// The answer that counts as success at the texture service.
pub const STATUS_OK: u16 = 200;

/// What came of asking the texture service for a texture.
#[derive(Debug, PartialEq, Eq)]
pub enum TextureResponse {
    /// No answer came.
    Failed,
    /// The service answered with `status`; `body` holds what it sent, or
    /// nothing where that could not be read to its end.
    Answered { status: u16, body: Option<Vec<u8>> },
}

/// The mathematical value of a `TextureResponse`.
pub enum TextureResponseView {
    Failed,
    Answered { status: u16, body: Option<Seq<u8>> },
}

impl View for TextureResponse {
    type V = TextureResponseView;

    open spec fn view(&self) -> TextureResponseView {
        match self {
            TextureResponse::Failed => TextureResponseView::Failed,
            TextureResponse::Answered { status, body } => TextureResponseView::Answered {
                status: *status,
                body: bytes_view(*body),
            },
        }
    }
}

/// What a response of the texture service amounts to: the bytes of the
/// texture where the service answered `STATUS_OK` and its answer was read,
/// `InvalidTexture` where it answered anything else, and `FetchError` where no
/// answer came or the answer broke off.
pub open spec fn texture_outcome(response: TextureResponseView) -> Result<Seq<u8>, DownloadError> {
    match response {
        TextureResponseView::Failed => Err(DownloadError::FetchError),
        TextureResponseView::Answered { status, body } => if status != STATUS_OK {
            Err(DownloadError::InvalidTexture)
        } else {
            match body {
                Some(bytes) => Ok(bytes),
                None => Err(DownloadError::FetchError),
            }
        },
    }
}

/// Judges a response of the texture service.
pub fn texture_result(response: TextureResponse) -> (r: Result<Vec<u8>, DownloadError>)
    ensures
        r is Ok <==> texture_outcome(response@) is Ok,
        r matches Ok(bytes) ==> texture_outcome(response@) == Ok::<Seq<u8>, DownloadError>(bytes@),
        r matches Err(error) ==> texture_outcome(response@) == Err::<Seq<u8>, DownloadError>(error),
{
    match response {
        TextureResponse::Failed => Err(DownloadError::FetchError),
        TextureResponse::Answered { status, body } => {
            if status != STATUS_OK {
                return Err(DownloadError::InvalidTexture);
            }
            match body {
                Some(bytes) => Ok(bytes),
                None => Err(DownloadError::FetchError),
            }
        },
    }
}

/// Where the bytes of a skin come from.
#[derive(Clone, Copy, Debug, PartialEq, Eq, Structural)]
pub enum Origin {
    /// The texture service sent them.
    Fetched,
    /// They are those of a default skin, which stands in for a profile.
    Fallback(DefaultSkin),
}

/// The outcome of a download that has succeeded: the bytes of a skin, still
/// undecoded, and where they come from.
#[derive(Debug, PartialEq, Eq)]
pub struct ResolvedSkin {
    pub bytes: Vec<u8>,
    pub origin: Origin,
}

/// The mathematical value of a `ResolvedSkin`.
pub struct ResolvedSkinView {
    pub bytes: Seq<u8>,
    pub origin: Origin,
}

impl View for ResolvedSkin {
    type V = ResolvedSkinView;

    open spec fn view(&self) -> ResolvedSkinView {
        ResolvedSkinView { bytes: self.bytes@, origin: self.origin }
    }
}

/// What a download is waiting for.
#[derive(Clone, Copy, Debug, PartialEq, Eq, Structural)]
pub enum Pending {
    /// The properties of the player's profile.
    Profile,
    /// The skin address that the textures document of the profile names.
    SkinUrl,
    /// The texture itself.
    Texture,
}

/// A download under way.
#[derive(Clone, Copy, Debug, PartialEq, Eq)]
pub struct Download {
    /// What has been asked for and not yet answered.
    pub pending: Pending,
    /// The profile whose default skin stands in if the download fails; none
    /// where a failure is reported as it is.
    pub fallback: Option<u128>,
}

/// What the caller is asked to do next.
#[derive(Debug, PartialEq, Eq)]
pub enum Request {
    /// Fetch the profile at `url` and hand back its properties.
    Profile { url: String },
    /// Read the textures document and hand back the skin address in it.
    SkinUrl { document: String },
    /// Fetch the texture at `url` and hand back the response.
    Texture { url: String },
}

/// The mathematical value of a `Request`.
pub enum RequestView {
    Profile { url: Seq<char> },
    SkinUrl { document: Seq<char> },
    Texture { url: Seq<char> },
}

impl View for Request {
    type V = RequestView;

    open spec fn view(&self) -> RequestView {
        match self {
            Request::Profile { url } => RequestView::Profile { url: url@ },
            Request::SkinUrl { document } => RequestView::SkinUrl { document: document@ },
            Request::Texture { url } => RequestView::Texture { url: url@ },
        }
    }
}

/// Where a download stands after a move: it goes on with a request to the
/// caller, or it has ended with the bytes of a skin or with an error.
#[derive(Debug, PartialEq, Eq)]
pub enum Step {
    Continue(Download, Request),
    Done(Result<ResolvedSkin, DownloadError>),
}

/// The mathematical value of a `Step`.
pub enum StepView {
    Continue(Download, RequestView),
    Done(Result<ResolvedSkinView, DownloadError>),
}

impl View for Step {
    type V = StepView;

    open spec fn view(&self) -> StepView {
        match self {
            Step::Continue(download, request) => StepView::Continue(*download, request@),
            Step::Done(Ok(skin)) => StepView::Done(Ok(skin@)),
            Step::Done(Err(error)) => StepView::Done(Err(*error)),
        }
    }
}

/// What the caller hands back after doing what a `Request` asked.
#[derive(Debug, PartialEq, Eq)]
pub enum Event {
    /// The properties of the profile, or nothing where the profile could not
    /// be fetched or read.
    Profile(Option<Vec<ProfileProperty>>),
    /// The skin address in the textures document, or nothing where the
    /// document does not hold one.
    SkinUrl(Option<String>),
    /// The response of the texture service.
    Texture(TextureResponse),
}

/// The mathematical value of an `Event`.
pub enum EventView {
    Profile(Option<Seq<ProfilePropertyView>>),
    SkinUrl(Option<Seq<char>>),
    Texture(TextureResponseView),
}

impl View for Event {
    type V = EventView;

    open spec fn view(&self) -> EventView {
        match self {
            Event::Profile(Some(properties)) => EventView::Profile(
                Some(property_views(properties@)),
            ),
            Event::Profile(None) => EventView::Profile(None),
            Event::SkinUrl(Some(url)) => EventView::SkinUrl(Some(url@)),
            Event::SkinUrl(None) => EventView::SkinUrl(None),
            Event::Texture(response) => EventView::Texture(response@),
        }
    }
}

/// The first move on a texture identifier: ask for the texture. A failure
/// will be reported as it is.
pub open spec fn texture_start(texture_id: Seq<char>) -> StepView {
    StepView::Continue(
        Download { pending: Pending::Texture, fallback: None },
        RequestView::Texture { url: texture_url_of(texture_id) },
    )
}

/// The first move on a profile identifier that is taken as it is: ask for
/// the profile. A failure will be reported as it is.
pub open spec fn profile_start(uuid: Seq<char>) -> StepView {
    StepView::Continue(
        Download { pending: Pending::Profile, fallback: None },
        RequestView::Profile { url: profile_url_of(uuid) },
    )
}

/// The first move on any identifier. One of `PROFILE_ID_LENGTH` characters
/// must be a UUID, else the download ends at once with `InvalidUuid`; its
/// profile is asked for, and its default skin will stand in for any failure.
/// Any other identifier is taken for a texture identifier.
pub open spec fn first_step(id: Seq<char>) -> StepView {
    match id_kind(id) {
        IdKind::Profile => match uuid_of(id) {
            Some(uuid) => StepView::Continue(
                Download { pending: Pending::Profile, fallback: Some(uuid) },
                RequestView::Profile { url: profile_url_of(id) },
            ),
            None => StepView::Done(Err(DownloadError::InvalidUuid)),
        },
        IdKind::Texture => texture_start(id),
    }
}

/// How a download ends when a step of it has failed with `error`: with the
/// default skin of its profile where it has one, with the error where not.
pub open spec fn failure(
    download: Download,
    error: DownloadError,
    skins: DefaultSkinsView,
) -> StepView {
    match download.fallback {
        Some(uuid) => StepView::Done(
            Ok(
                ResolvedSkinView {
                    bytes: skins.bytes(fallback_choice(uuid)),
                    origin: Origin::Fallback(fallback_choice(uuid)),
                },
            ),
        ),
        None => StepView::Done(Err(error)),
    }
}

/// The move that a download makes on an event.
///
/// - Waiting for a profile, and given its properties: it asks for the skin
///   address in the textures document; a profile without such a document is
///   a failure with `InvalidTexture`, no properties one with `FetchError`.
/// - Waiting for the skin address, and given it: it asks for the texture that
///   the last segment of the address names; no address is a failure with
///   `InvalidTexture`.
/// - Waiting for the texture, and given the response: it ends with the bytes
///   that were fetched, or fails with the error that `texture_outcome` gives.
/// - Given an event that it is not waiting for: it fails with `FetchError`.
pub open spec fn next_step(
    download: Download,
    event: EventView,
    skins: DefaultSkinsView,
) -> StepView {
    match (download.pending, event) {
        (Pending::Profile, EventView::Profile(Some(properties))) => match textures_document(
            properties,
        ) {
            Some(document) => StepView::Continue(
                Download { pending: Pending::SkinUrl, fallback: download.fallback },
                RequestView::SkinUrl { document },
            ),
            None => failure(download, DownloadError::InvalidTexture, skins),
        },
        (Pending::SkinUrl, EventView::SkinUrl(Some(url))) => StepView::Continue(
            Download { pending: Pending::Texture, fallback: download.fallback },
            RequestView::Texture { url: texture_url_of(last_segment(url)) },
        ),
        (Pending::SkinUrl, EventView::SkinUrl(None)) => failure(
            download,
            DownloadError::InvalidTexture,
            skins,
        ),
        (Pending::Texture, EventView::Texture(response)) => match texture_outcome(response) {
            Ok(bytes) => StepView::Done(Ok(ResolvedSkinView { bytes, origin: Origin::Fetched })),
            Err(error) => failure(download, error, skins),
        },
        _ => failure(download, DownloadError::FetchError, skins),
    }
}

/// Starts the download of the texture `texture_id`.
pub fn download_from_texture_id(texture_id: &str) -> (step: Step)
    ensures
        step@ == texture_start(texture_id@),
{
    Step::Continue(
        Download { pending: Pending::Texture, fallback: None },
        Request::Texture { url: texture_url(texture_id) },
    )
}

/// Starts the download of the skin of the profile `uuid`, which is taken as
/// it is and has no skin to stand in for it.
pub fn download_from_uuid(uuid: &str) -> (step: Step)
    ensures
        step@ == profile_start(uuid@),
{
    Step::Continue(
        Download { pending: Pending::Profile, fallback: None },
        Request::Profile { url: profile_url(uuid) },
    )
}

/// Starts the download of the skin that `id` names, be it a profile or a
/// texture.
pub fn download_from_id(id: &str) -> (step: Step)
    ensures
        step@ == first_step(id@),
{
    match classify(id) {
        IdKind::Profile => match parse_uuid(id) {
            Some(uuid) => Step::Continue(
                Download { pending: Pending::Profile, fallback: Some(uuid) },
                Request::Profile { url: profile_url(id) },
            ),
            None => Step::Done(Err(DownloadError::InvalidUuid)),
        },
        IdKind::Texture => download_from_texture_id(id),
    }
}

/// Ends a download of which a step has failed with `error`.
fn give_up(download: Download, error: DownloadError, skins: &DefaultSkins) -> (step: Step)
    ensures
        step@ == failure(download, error, skins@),
{
    match download.fallback {
        Some(uuid) => {
            let skin = fallback_skin(uuid);
            Step::Done(Ok(ResolvedSkin { bytes: skins.get(skin), origin: Origin::Fallback(skin) }))
        },
        None => Step::Done(Err(error)),
    }
}

/// Moves a download on by one event.
pub fn advance(download: Download, event: Event, skins: &DefaultSkins) -> (step: Step)
    ensures
        step@ == next_step(download, event@, skins@),
{
    match download.pending {
        Pending::Profile => match event {
            Event::Profile(Some(properties)) => match textures_payload(&properties) {
                Some(document) => Step::Continue(
                    Download { pending: Pending::SkinUrl, fallback: download.fallback },
                    Request::SkinUrl { document },
                ),
                None => give_up(download, DownloadError::InvalidTexture, skins),
            },
            _ => give_up(download, DownloadError::FetchError, skins),
        },
        Pending::SkinUrl => match event {
            Event::SkinUrl(Some(url)) => {
                let texture_id = texture_id_of(url.as_str());
                Step::Continue(
                    Download { pending: Pending::Texture, fallback: download.fallback },
                    Request::Texture { url: texture_url(texture_id.as_str()) },
                )
            },
            Event::SkinUrl(None) => give_up(download, DownloadError::InvalidTexture, skins),
            _ => give_up(download, DownloadError::FetchError, skins),
        },
        Pending::Texture => match event {
            Event::Texture(response) => match texture_result(response) {
                Ok(bytes) => Step::Done(Ok(ResolvedSkin { bytes, origin: Origin::Fetched })),
                Err(error) => give_up(download, error, skins),
            },
            _ => give_up(download, DownloadError::FetchError, skins),
        },
    }
}

/// The one bit of a UUID that decides which skin stands in for it: the
/// parity of the lowest bits of its four 32-bit words.
pub open spec fn parity_bit(uuid: u128) -> u128 {
    (uuid ^ (uuid >> 32) ^ (uuid >> 64) ^ (uuid >> 96)) & 1
}

/// The lowest bit of the hash is the parity bit.
pub proof fn lemma_hash_parity(uuid: u128)
    ensures
        (java_hash(uuid) & 1 == 0) <==> (parity_bit(uuid) == 0),
        parity_bit(uuid) == 0 || parity_bit(uuid) == 1,
{
    let folded = (uuid >> 96) ^ (uuid >> 64) ^ (uuid >> 32) ^ uuid;
    let parity = (uuid ^ (uuid >> 32) ^ (uuid >> 64) ^ (uuid >> 96)) & 1;
    assert(((folded & 0xffff_ffff) as u32 & 1 == 0) <==> (parity == 0)) by (bit_vector)
        requires
            folded == (uuid >> 96) ^ (uuid >> 64) ^ (uuid >> 32) ^ uuid,
            parity == (uuid ^ (uuid >> 32) ^ (uuid >> 64) ^ (uuid >> 96)) & 1,
    ;
    assert(parity == 0 || parity == 1) by (bit_vector)
        requires
            parity == (uuid ^ (uuid >> 32) ^ (uuid >> 64) ^ (uuid >> 96)) & 1,
    ;
}

/// The skin that stands in for a profile is a function of its identifier, and
/// of its parity bit alone: two profiles get the same skin if and only if
/// their parity bits agree.
pub proof fn lemma_fallback_follows_parity(a: u128, b: u128)
    ensures
        fallback_choice(a) == fallback_choice(b) <==> parity_bit(a) == parity_bit(b),
{
    lemma_hash_parity(a);
    lemma_hash_parity(b);
}

/// Changing the lowest bit of a profile identifier changes the skin that
/// stands in for it.
pub proof fn lemma_fallback_flips_with_lowest_bit(uuid: u128)
    ensures
        fallback_choice(uuid ^ 1) != fallback_choice(uuid),
{
    let other = uuid ^ 1;
    lemma_hash_parity(uuid);
    lemma_hash_parity(other);
    assert((other ^ (other >> 32) ^ (other >> 64) ^ (other >> 96)) & 1 != (uuid ^ (uuid >> 32) ^ (
    uuid >> 64) ^ (uuid >> 96)) & 1) by (bit_vector)
        requires
            other == uuid ^ 1,
    ;
}

/// Routing: an identifier of `PROFILE_ID_LENGTH` characters is never taken
/// for a texture identifier, and one of any other length always is.
pub proof fn lemma_routing(id: Seq<char>)
    ensures
        id.len() == PROFILE_ID_LENGTH ==> first_step(id) == match uuid_of(id) {
            Some(uuid) => StepView::Continue(
                Download { pending: Pending::Profile, fallback: Some(uuid) },
                RequestView::Profile { url: profile_url_of(id) },
            ),
            None => StepView::Done(Err(DownloadError::InvalidUuid)),
        },
        id.len() != PROFILE_ID_LENGTH ==> first_step(id) == texture_start(id),
{
}

/// A download that has a skin to stand in for it never ends with an error:
/// whatever happens, it goes on with the same stand-in, or ends with the bytes
/// that were fetched, or ends with the default skin that its profile picks.
pub proof fn lemma_fallback_download_never_fails(
    download: Download,
    event: EventView,
    skins: DefaultSkinsView,
)
    requires
        download.fallback is Some,
    ensures
        match next_step(download, event, skins) {
            StepView::Continue(next, _) => next.fallback == download.fallback,
            StepView::Done(Ok(skin)) => skin.origin == Origin::Fetched || skin == (
            ResolvedSkinView {
                bytes: skins.bytes(fallback_choice(download.fallback->0)),
                origin: Origin::Fallback(fallback_choice(download.fallback->0)),
            }),
            StepView::Done(Err(_)) => false,
        },
{
}

/// A download without a stand-in never ends with a default skin: it goes on
/// without a stand-in, or ends with the bytes that were fetched, or with an
/// error. A texture that the service refuses ends it with `InvalidTexture`.
pub proof fn lemma_plain_download_reports_failure(
    download: Download,
    event: EventView,
    skins: DefaultSkinsView,
)
    requires
        download.fallback is None,
    ensures
        match next_step(download, event, skins) {
            StepView::Continue(next, _) => next.fallback is None,
            StepView::Done(Ok(skin)) => skin.origin == Origin::Fetched,
            StepView::Done(Err(_)) => true,
        },
        download.pending == Pending::Texture ==> (forall|status: u16, body: Option<Seq<u8>>|
            status != STATUS_OK ==> #[trigger] next_step(
                download,
                EventView::Texture(TextureResponseView::Answered { status, body }),
                skins,
            ) == StepView::Done(Err(DownloadError::InvalidTexture))),
{
}

} // verus!

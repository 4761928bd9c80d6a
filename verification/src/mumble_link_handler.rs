//! Opening, reading and releasing the shared region.
//!
//! This module decides; it never calls the operating system. Opening is a short
//! exchange: an `Opening` names the call to make next, the caller makes it and hands
//! back what the system returned, and the `Opening` says how to go on. The exchange
//! attaches to an existing object first and creates one only if that fails; whatever
//! it has acquired by the time a call fails, it has closed before it reports the
//! failure. A name that holds a NUL is refused before any call is asked for.

use vstd::prelude::*;
use crate::error::MumbleLinkHandlerError;
use crate::layout::{raw_size, record_size};
use crate::mumble_link::{
    raw_outcome, read_outcome, CMumbleLinkData, CMumbleLinkDataView, MumbleLinkData,
    MumbleLinkDataView, MumbleLinkReader,
};
use crate::platform::{
    default_name, lemma_object_name_is_usable, object_name, usable_name, Platform,
};
use crate::wide_text::WideEncoding;

verus! {

/// A call for the caller to make, on the object named by `Opening::object_name`.
#[derive(Clone, Copy, Debug, PartialEq, Eq, Structural)]
pub enum Request {
    /// Open the existing object for reading and writing.
    Attach,
    /// Create the object, readable and writable by its owner, or open it if another
    /// process has created it in the meantime. A new object is empty.
    Create,
    /// Create the object with room for `len` bytes, or open it if another process has
    /// created it in the meantime.
    CreateWithSize { len: usize },
    /// Set the size of the object just created to `len` bytes.
    Resize { resource: isize, len: usize },
    /// Map `len` bytes of the object, shared, for reading and writing.
    MapView { resource: isize, len: usize },
    /// Close the descriptor or handle.
    Close { resource: isize },
}

/// What the operating system answered: the value that the call returned (a
/// descriptor, a handle, a status or an address), and the system's error code as it
/// stood right after the call.
#[derive(Clone, Copy, Debug, PartialEq, Eq, Structural)]
pub struct Reply {
    pub value: isize,
    pub os_error: i32,
}

/// How far the exchange has come: the call whose answer is awaited.
#[derive(Clone, Copy, Debug, PartialEq, Eq, Structural)]
pub enum Stage {
    /// Attaching to an existing object.
    Attaching,
    /// Creating the object, after attaching failed.
    Creating,
    /// Sizing the object just created.
    Sizing { resource: isize },
    /// Mapping the object.
    Mapping { resource: isize },
    /// Closing the object after the call that reported `error`.
    Closing { resource: isize, error: i32 },
}

/// Where one answer leads.
pub ghost enum Transition {
    /// Another call is needed.
    Continue(Stage),
    /// The region is mapped.
    Opened { resource: isize, address: isize },
    /// The region could not be had; nothing is held any more.
    Failed { error: i32 },
}

/// The call that a stage waits for.
pub open spec fn request_of(stage: Stage, platform: Platform) -> Request {
    let len = raw_size(platform.wide()) as usize;
    match stage {
        Stage::Attaching => Request::Attach,
        Stage::Creating => if platform.sizes_after_creation() {
            Request::Create
        } else {
            Request::CreateWithSize { len }
        },
        Stage::Sizing { resource } => Request::Resize { resource, len },
        Stage::Mapping { resource } => Request::MapView { resource, len },
        Stage::Closing { resource, error } => Request::Close { resource },
    }
}

/// Where the answer to a stage's call leads.
pub open spec fn transition(stage: Stage, platform: Platform, reply: Reply) -> Transition {
    match stage {
        Stage::Attaching => if platform.resource_failed(reply.value) {
            Transition::Continue(Stage::Creating)
        } else {
            Transition::Continue(Stage::Mapping { resource: reply.value })
        },
        Stage::Creating => if platform.resource_failed(reply.value) {
            Transition::Failed { error: reply.os_error }
        } else if platform.sizes_after_creation() {
            Transition::Continue(Stage::Sizing { resource: reply.value })
        } else {
            Transition::Continue(Stage::Mapping { resource: reply.value })
        },
        Stage::Sizing { resource } => if reply.value < 0 {
            Transition::Continue(Stage::Closing { resource, error: reply.os_error })
        } else {
            Transition::Continue(Stage::Mapping { resource })
        },
        Stage::Mapping { resource } => if platform.map_failed(reply.value) {
            Transition::Continue(Stage::Closing { resource, error: reply.os_error })
        } else {
            Transition::Opened { resource, address: reply.value }
        },
        Stage::Closing { resource, error } => Transition::Failed { error },
    }
}

/// Where a whole series of answers leads, each given to the call that the one before
/// it led to. Answers behind the end of the exchange are not looked at.
pub open spec fn run(stage: Stage, platform: Platform, replies: Seq<Reply>) -> Transition
    decreases replies.len(),
{
    if replies.len() == 0 {
        Transition::Continue(stage)
    } else {
        match transition(stage, platform, replies[0]) {
            Transition::Continue(next) => run(next, platform, replies.skip(1)),
            end => end,
        }
    }
}

/// The descriptor or handle that is held while a stage waits.
pub open spec fn held(stage: Stage) -> Option<isize> {
    match stage {
        Stage::Attaching => None,
        Stage::Creating => None,
        Stage::Sizing { resource } => Some(resource),
        Stage::Mapping { resource } => Some(resource),
        Stage::Closing { resource, error } => Some(resource),
    }
}

/// An exchange under way.
#[derive(Debug)]
pub struct Opening {
    name: String,
    platform: Platform,
    stage: Stage,
}

/// What an `Opening` holds.
pub ghost struct OpeningView {
    /// The object's name as the operating system knows it.
    pub name: Seq<char>,
    pub platform: Platform,
    pub stage: Stage,
}

impl View for Opening {
    type V = OpeningView;

    closed spec fn view(&self) -> OpeningView {
        OpeningView { name: self.name@, platform: self.platform, stage: self.stage }
    }
}

/// What comes of an answer.
#[derive(Debug)]
pub enum Progress {
    /// Another call is needed.
    Pending(Opening),
    /// The exchange is over.
    Done(Result<MumbleLinkHandler, MumbleLinkHandlerError>),
}

/// Owns one mapped region and the descriptor or handle behind it.
#[derive(Debug)]
pub struct MumbleLinkHandler {
    resource: Option<isize>,
    address: isize,
    platform: Platform,
}

/// What a `MumbleLinkHandler` holds.
pub ghost struct HandlerView {
    /// The descriptor or handle, until it is released.
    pub resource: Option<isize>,
    /// The address of the mapped region; zero when nothing is mapped.
    pub address: isize,
    pub platform: Platform,
}

impl View for MumbleLinkHandler {
    type V = HandlerView;

    closed spec fn view(&self) -> HandlerView {
        HandlerView { resource: self.resource, address: self.address, platform: self.platform }
    }
}

/// What the caller must give back to the operating system when a handler is released.
#[derive(Clone, Copy, Debug, PartialEq, Eq, Structural)]
pub struct Release {
    /// The descriptor or handle to close.
    pub resource: isize,
    /// The address of the region to unmap, if one is mapped.
    pub address: Option<isize>,
    /// The length of that region in bytes.
    pub len: usize,
}

impl HandlerView {
    /// Whether a region is mapped.
    pub open spec fn mapped(self) -> bool {
        self.address != 0
    }

    /// The handler after its release.
    pub open spec fn released(self) -> HandlerView {
        HandlerView { resource: None, address: 0, platform: self.platform }
    }

    /// What a release of the handler gives back.
    pub open spec fn release(self) -> Option<Release> {
        match self.resource {
            Some(resource) => Some(
                Release {
                    resource,
                    address: if self.address != 0 {
                        Some(self.address)
                    } else {
                        None
                    },
                    len: raw_size(self.platform.wide()) as usize,
                },
            ),
            None => None,
        }
    }
}

impl Opening {
    /// No call is asked for under a name that the operating system would read only in
    /// part.
    #[verifier::type_invariant]
    spec fn has_a_usable_name(self) -> bool {
        usable_name(self.name@)
    }

    /// The name of the shared object, as the operating system knows it. It holds no
    /// NUL.
    pub fn object_name(&self) -> (name: &str)
        ensures
            name@ == self@.name,
            usable_name(name@),
    {
        proof {
            use_type_invariant(self);
        }
        self.name.as_str()
    }

    /// The platform whose rules the exchange follows.
    pub fn platform(&self) -> (platform: Platform)
        ensures
            platform == self@.platform,
    {
        self.platform
    }

    /// The stage that the exchange is in.
    pub fn stage(&self) -> (stage: Stage)
        ensures
            stage == self@.stage,
    {
        self.stage
    }

    /// The call to make next.
    pub fn request(&self) -> (request: Request)
        ensures
            request == request_of(self@.stage, self@.platform),
    {
        let len: usize = record_size(self.platform.wide_encoding());
        match self.stage {
            Stage::Attaching => Request::Attach,
            Stage::Creating => match self.platform {
                Platform::Unix { .. } => Request::Create,
                Platform::Windows => Request::CreateWithSize { len },
            },
            Stage::Sizing { resource } => Request::Resize { resource, len },
            Stage::Mapping { resource } => Request::MapView { resource, len },
            Stage::Closing { resource, .. } => Request::Close { resource },
        }
    }

    /// Takes the answer to the call that `request` named. The exchange goes on in the
    /// stage that the answer leads to, under the same name, or ends: with a handler
    /// for the mapped region, or with the error code of the call that failed.
    pub fn advance(self, reply: Reply) -> (progress: Progress)
        ensures
            match progress {
                Progress::Pending(next) => transition(self@.stage, self@.platform, reply)
                    == Transition::Continue(next@.stage) && next@.name == self@.name
                    && next@.platform == self@.platform,
                Progress::Done(Ok(handler)) => transition(self@.stage, self@.platform, reply)
                    == (Transition::Opened {
                    resource: handler@.resource->0,
                    address: handler@.address,
                }) && handler@.resource is Some && handler@.platform == self@.platform,
                Progress::Done(Err(e)) => e matches MumbleLinkHandlerError::OSError(error)
                    && transition(self@.stage, self@.platform, reply) == (Transition::Failed {
                    error,
                }),
            },
    {
        proof {
            use_type_invariant(&self);
        }
        let platform = self.platform;
        let name = self.name;
        match self.stage {
            Stage::Attaching => {
                if platform.is_resource_failure(reply.value) {
                    Progress::Pending(Opening { name, platform, stage: Stage::Creating })
                } else {
                    Progress::Pending(
                        Opening { name, platform, stage: Stage::Mapping { resource: reply.value } },
                    )
                }
            },
            Stage::Creating => {
                if platform.is_resource_failure(reply.value) {
                    Progress::Done(Err(MumbleLinkHandlerError::OSError(reply.os_error)))
                } else {
                    match platform {
                        Platform::Unix { .. } => Progress::Pending(
                            Opening {
                                name,
                                platform,
                                stage: Stage::Sizing { resource: reply.value },
                            },
                        ),
                        Platform::Windows => Progress::Pending(
                            Opening {
                                name,
                                platform,
                                stage: Stage::Mapping { resource: reply.value },
                            },
                        ),
                    }
                }
            },
            Stage::Sizing { resource } => {
                if reply.value < 0 {
                    Progress::Pending(
                        Opening {
                            name,
                            platform,
                            stage: Stage::Closing { resource, error: reply.os_error },
                        },
                    )
                } else {
                    Progress::Pending(Opening { name, platform, stage: Stage::Mapping { resource } })
                }
            },
            Stage::Mapping { resource } => {
                if platform.is_map_failure(reply.value) {
                    Progress::Pending(
                        Opening {
                            name,
                            platform,
                            stage: Stage::Closing { resource, error: reply.os_error },
                        },
                    )
                } else {
                    Progress::Done(
                        Ok(
                            MumbleLinkHandler {
                                resource: Some(resource),
                                address: reply.value,
                                platform,
                            },
                        ),
                    )
                }
            },
            Stage::Closing { error, .. } => Progress::Done(
                Err(MumbleLinkHandlerError::OSError(error)),
            ),
        }
    }
}

impl MumbleLinkHandler {
    /// A region is mapped only as long as the descriptor or handle behind it is owned.
    #[verifier::type_invariant]
    spec fn owns_what_it_maps(self) -> bool {
        self.address != 0 ==> self.resource is Some
    }

    /// Starts to open the shared object called `name`. A name that holds a NUL names
    /// no object on either platform: it is refused with the platform's error code for
    /// a bad name, and no call is asked for.
    pub fn with_name(name: &str, platform: Platform) -> (opening: Result<
        Opening,
        MumbleLinkHandlerError,
    >)
        ensures
            opening is Ok <==> usable_name(name@),
            opening matches Ok(o) ==> o@ == (OpeningView {
                name: object_name(name@, platform),
                platform,
                stage: Stage::Attaching,
            }),
            opening matches Err(e) ==> e == MumbleLinkHandlerError::OSError(
                platform.invalid_name_error(),
            ),
    {
        match platform.object_name(name) {
            Some(full) => Ok(Opening { name: full, platform, stage: Stage::Attaching }),
            None => Err(MumbleLinkHandlerError::OSError(platform.invalid_name_code())),
        }
    }

    /// Starts to open the shared object under its usual name, which is usable on
    /// either platform.
    pub fn new(platform: Platform) -> (opening: Opening)
        ensures
            opening@ == (OpeningView {
                name: object_name(default_name(), platform),
                platform,
                stage: Stage::Attaching,
            }),
    {
        proof {
            lemma_object_name_is_usable(default_name(), platform);
        }
        Opening { name: platform.full_name("MumbleLink"), platform, stage: Stage::Attaching }
    }

    /// The descriptor or handle, as long as the handler owns one.
    pub fn resource(&self) -> (resource: Option<isize>)
        ensures
            resource == self@.resource,
    {
        self.resource
    }

    /// The address of the mapped region; zero when nothing is mapped.
    pub fn ptr(&self) -> (address: isize)
        ensures
            address == self@.address,
    {
        self.address
    }

    /// The platform on which the region was opened.
    pub fn platform(&self) -> (platform: Platform)
        ensures
            platform == self@.platform,
    {
        self.platform
    }

    /// Whether a region is mapped. A handler that maps one owns the descriptor or
    /// handle behind it.
    pub fn is_mapped(&self) -> (mapped: bool)
        ensures
            mapped == self@.mapped(),
            mapped ==> self@.resource is Some,
    {
        proof {
            use_type_invariant(self);
        }
        self.address != 0
    }

    /// The number of bytes to copy from the mapped address for one reading.
    pub fn region_len(&self) -> (len: usize)
        ensures
            len == raw_size(self@.platform.wide()),
    {
        record_size(self.platform.wide_encoding())
    }

    /// Gives up the region. The first release hands back what is to be closed and
    /// unmapped; any later one hands back nothing and changes nothing. After it the
    /// handler maps nothing.
    pub fn release(&mut self) -> (release: Option<Release>)
        ensures
            release == old(self)@.release(),
            final(self)@ == old(self)@.released(),
            old(self)@.mapped() ==> release is Some && release->0.address == Some(
                old(self)@.address,
            ),
    {
        proof {
            use_type_invariant(&*self);
        }
        let release = match self.resource {
            Some(resource) => Some(
                Release {
                    resource,
                    address: if self.address != 0 {
                        Some(self.address)
                    } else {
                        None
                    },
                    len: record_size(self.platform.wide_encoding()),
                },
            ),
            None => None,
        };
        self.address = 0;
        self.resource = None;
        release
    }
}

impl MumbleLinkReader for MumbleLinkHandler {
    open spec fn readable(&self) -> bool {
        self@.mapped()
    }

    open spec fn encoding(&self) -> WideEncoding {
        self@.platform.wide()
    }

    fn read(&self, region: &[u8]) -> (data: Result<MumbleLinkData, MumbleLinkHandlerError>) {
        match self.read_c(region) {
            Ok(raw) => Ok(raw.to_mumble_link_data()),
            Err(e) => Err(e),
        }
    }

    fn read_c(&self, region: &[u8]) -> (raw: Result<CMumbleLinkData, MumbleLinkHandlerError>) {
        if self.address == 0 {
            return Err(MumbleLinkHandlerError::UnableToRead);
        }
        match CMumbleLinkData::from_bytes(region, self.platform.wide_encoding()) {
            Some(raw) => Ok(raw),
            None => Err(MumbleLinkHandlerError::UnableToRead),
        }
    }
}

/// A released handler cannot be read, whatever the region holds, and a second release
/// finds nothing left to give back and changes nothing.
pub proof fn lemma_release_is_final(handler: HandlerView, region: Seq<u8>)
    ensures
        !handler.released().mapped(),
        raw_outcome(handler.released().mapped(), region, handler.platform.wide()) == Err::<
            CMumbleLinkDataView,
            MumbleLinkHandlerError,
        >(MumbleLinkHandlerError::UnableToRead),
        read_outcome(handler.released().mapped(), region, handler.platform.wide()) == Err::<
            MumbleLinkDataView,
            MumbleLinkHandlerError,
        >(MumbleLinkHandlerError::UnableToRead),
        handler.released().release() is None,
        handler.released().released() == handler.released(),
{
}

/// What a release gives back is what the handler owned: its descriptor or handle,
/// and its region if one was mapped. A handler that owns nothing gives nothing back.
pub proof fn lemma_release_gives_back_what_is_owned(handler: HandlerView)
    ensures
        handler.release() is Some <==> handler.resource is Some,
        handler.release() matches Some(r) ==> handler.resource == Some(r.resource) && (
        handler.mapped() ==> r.address == Some(handler.address)) && (!handler.mapped()
            ==> r.address is None),
{
}

/// Where the object exists, it is attached to and mapped, and nothing else is asked
/// of the operating system: no creation, no sizing.
pub proof fn lemma_existing_object_is_attached(platform: Platform, found: Reply, mapped: Reply)
    requires
        !platform.resource_failed(found.value),
        !platform.map_failed(mapped.value),
    ensures
        request_of(Stage::Attaching, platform) == Request::Attach,
        transition(Stage::Attaching, platform, found) == Transition::Continue(
            Stage::Mapping { resource: found.value },
        ),
        request_of(Stage::Mapping { resource: found.value }, platform) == (Request::MapView {
            resource: found.value,
            len: raw_size(platform.wide()) as usize,
        }),
        run(Stage::Attaching, platform, seq![found, mapped]) == (Transition::Opened {
            resource: found.value,
            address: mapped.value,
        }),
{
    reveal_with_fuel(run, 3);
}

/// Where no object exists, one is created after the one failed attempt to attach. Only
/// where the platform sizes after creation is the new object sized, and then before
/// it is mapped.
pub proof fn lemma_missing_object_is_created(
    platform: Platform,
    missing: Reply,
    created: Reply,
    sized: Reply,
)
    requires
        platform.resource_failed(missing.value),
        !platform.resource_failed(created.value),
        sized.value >= 0,
    ensures
        transition(Stage::Attaching, platform, missing) == Transition::Continue(Stage::Creating),
        platform.sizes_after_creation() ==> request_of(Stage::Creating, platform)
            == Request::Create && run(Stage::Attaching, platform, seq![missing, created, sized])
            == Transition::Continue(Stage::Mapping { resource: created.value }),
        !platform.sizes_after_creation() ==> request_of(Stage::Creating, platform)
            == (Request::CreateWithSize { len: raw_size(platform.wide()) as usize }) && run(
            Stage::Attaching,
            platform,
            seq![missing, created],
        ) == Transition::Continue(Stage::Mapping { resource: created.value }),
{
    reveal_with_fuel(run, 4);
}

/// No answer makes the exchange lose or swap what it holds: a descriptor or handle,
/// once held, is held until the exchange ends; it ends in a handler only for what it
/// held; and it ends in failure only when it holds nothing or has just had its
/// holding closed. The error it then reports is that of the call that failed.
pub proof fn lemma_nothing_leaks(stage: Stage, platform: Platform, reply: Reply)
    ensures
        match transition(stage, platform, reply) {
            Transition::Continue(next) => held(stage) is Some ==> held(next) == held(stage),
            Transition::Opened { resource, address } => held(stage) == Some(resource),
            Transition::Failed { error } => match stage {
                Stage::Creating => error == reply.os_error,
                Stage::Closing { resource, error: first } => error == first && request_of(
                    stage,
                    platform,
                ) == (Request::Close { resource }),
                _ => false,
            },
        },
        transition(stage, platform, reply) matches Transition::Continue(
            Stage::Closing { resource, error },
        ) ==> held(stage) == Some(resource) && error == reply.os_error,
{
}

/// The exchange is over after five answers at the latest.
pub proof fn lemma_exchange_ends(platform: Platform, replies: Seq<Reply>)
    requires
        replies.len() >= 5,
    ensures
        !(run(Stage::Attaching, platform, replies) is Continue),
{
    reveal_with_fuel(run, 6);
}

} // verus!

//! The backend session: where the backend is found, what is sent to it, when
//! a failed call is repeated, and how results are read.

pub mod memory;
pub mod retry;
pub mod status;

use crate::client::status::StatusCode;
use vstd::prelude::*;

verus! {

/// The setting of the platform indicator on the managed platform.
pub open spec fn managed_environment() -> Seq<char> {
    "production"@
}

/// The address of the backend on the managed platform's internal network.
pub open spec fn managed_address() -> Seq<char> {
    "http://chimera-brain.railway.internal:50051"@
}

/// The address of a backend on this machine.
pub open spec fn local_address() -> Seq<char> {
    "http://localhost:50051"@
}

/// The backend's address for the given configuration: an explicit address
/// wins; without one the managed platform has its internal address and any
/// other environment the local one.
pub open spec fn resolved_address(
    environment: Option<String>,
    explicit_address: Option<String>,
) -> Seq<char> {
    match explicit_address {
        Some(address) => address@,
        None => match environment {
            Some(name) => if name@ == managed_environment() {
                managed_address()
            } else {
                local_address()
            },
            None => local_address(),
        },
    }
}

/// The backend's address, from the platform indicator and the explicit
/// address that the configuration holds, if any.
pub fn get_brain_address(environment: Option<String>, explicit_address: Option<String>) -> (address:
    String)
    ensures
        address@ == resolved_address(environment, explicit_address),
{
    match explicit_address {
        Some(address) => address,
        None => {
            let managed: bool = match environment {
                Some(name) => name == "production".to_owned(),
                None => false,
            };
            if managed {
                "http://chimera-brain.railway.internal:50051".to_owned()
            } else {
                "http://localhost:50051".to_owned()
            }
        },
    }
}

/// The record of one logical session with the backend. The connection under
/// it may be replaced; the endpoint that it was built from never changes.
pub struct BackendSession {
    endpoint: String,
    connections: u64,
}

impl BackendSession {
    /// The endpoint that the session was built from.
    pub closed spec fn endpoint(self) -> Seq<char> {
        self.endpoint@
    }

    /// How many connections the session has had, the live one included, as
    /// far as the count can hold them.
    pub closed spec fn connections(self) -> u64 {
        self.connections
    }

    /// The session of a connection that was just made to `endpoint`.
    pub fn new(endpoint: String) -> (session: BackendSession)
        ensures
            session.endpoint() == endpoint@,
            session.connections() == 1,
    {
        BackendSession { endpoint, connections: 1 }
    }

    /// The address that the session connects to.
    pub fn address(&self) -> (address: &str)
        ensures
            address@ == self.endpoint(),
    {
        self.endpoint.as_str()
    }

    /// How many connections the session has had.
    pub fn connection_count(&self) -> (count: u64)
        ensures
            count == self.connections(),
    {
        self.connections
    }

    /// Records that the connection was replaced by a new one to the same
    /// endpoint.
    pub fn reconnected(&mut self)
        ensures
            final(self).endpoint() == old(self).endpoint(),
            final(self).connections() == if old(self).connections() == u64::MAX {
                u64::MAX
            } else {
                (old(self).connections() + 1) as u64
            },
    {
        self.connections = self.connections.saturating_add(1);
    }
}

/// A request to find something in an image.
pub struct VisionQuery {
    /// The encoded image.
    pub screenshot: Vec<u8>,
    /// What to look for, in words.
    pub instruction: Option<String>,
}

/// A vision query as it goes over the wire.
pub struct VisionRequest {
    /// The encoded image.
    pub screenshot: Vec<u8>,
    /// Reserved; always empty.
    pub context: String,
    /// What to look for; empty when the query names nothing.
    pub text_command: String,
}

/// What the backend found in an image. Coordinates are thousandths of a
/// pixel, the confidence is in millionths.
pub struct VisionResult {
    /// Whether the backend located what was asked for.
    pub found: bool,
    /// Where it is, along x.
    pub x: i32,
    /// Where it is, along y.
    pub y: i32,
    /// How sure the backend is.
    pub confidence: u32,
    /// What the backend saw, in words.
    pub description: String,
}

/// A request to recall remembered situations.
pub struct MemoryQuery {
    /// What to recall, in words.
    pub query: String,
    /// A summary of the page's structure.
    pub ax_tree_summary: Option<String>,
    /// The hash of a screenshot to match exactly.
    pub screenshot_hash: Option<String>,
}

/// A memory query as it goes over the wire.
pub struct MemoryRequest {
    /// What to recall, in words.
    pub query: String,
    /// How many results to return at most.
    pub top_k: i32,
    /// A summary of the page's structure; empty when the query has none.
    pub ax_tree_summary: String,
    /// The hash of a screenshot; empty when the query has none.
    pub screenshot_hash: String,
}

/// Every memory query asks for this many results.
pub const MEMORY_TOP_K: i32 = 5;

/// The text of an optional field on the wire: empty when absent.
pub open spec fn text_or_empty(field: Option<String>) -> Seq<char> {
    match field {
        Some(text) => text@,
        None => Seq::empty(),
    }
}

/// The text of an optional field on the wire.
fn wire_text(field: Option<String>) -> (text: String)
    ensures
        text@ == text_or_empty(field),
{
    match field {
        Some(text) => text,
        None => String::new(),
    }
}

impl VisionQuery {
    /// The query as it goes over the wire.
    pub fn into_request(self) -> (request: VisionRequest)
        ensures
            request.screenshot@ == self.screenshot@,
            request.context@ == Seq::<char>::empty(),
            request.text_command@ == text_or_empty(self.instruction),
    {
        VisionRequest {
            screenshot: self.screenshot,
            context: String::new(),
            text_command: wire_text(self.instruction),
        }
    }
}

impl MemoryQuery {
    /// The query as it goes over the wire.
    pub fn into_request(self) -> (request: MemoryRequest)
        ensures
            request.query@ == self.query@,
            request.top_k == MEMORY_TOP_K,
            request.ax_tree_summary@ == text_or_empty(self.ax_tree_summary),
            request.screenshot_hash@ == text_or_empty(self.screenshot_hash),
    {
        MemoryRequest {
            query: self.query,
            top_k: MEMORY_TOP_K,
            ax_tree_summary: wire_text(self.ax_tree_summary),
            screenshot_hash: wire_text(self.screenshot_hash),
        }
    }
}

/// The image of a health probe: a PNG file of one opaque pixel, 67 bytes.
/// After the signature come the header (1 by 1, eight-bit greyscale, no
/// alpha), the data (one black pixel, deflated) and the end mark, each with
/// its length before it and its checksum after it.
pub open spec fn probe_image() -> Seq<u8> {
    seq![
        0x89u8, 0x50, 0x4E, 0x47, 0x0D, 0x0A, 0x1A, 0x0A,
        0x00, 0x00, 0x00, 0x0D, 0x49, 0x48, 0x44, 0x52,
        0x00, 0x00, 0x00, 0x01, 0x00, 0x00, 0x00, 0x01,
        0x08, 0x00, 0x00, 0x00, 0x00, 0x3A, 0x7E, 0x9B, 0x55,
        0x00, 0x00, 0x00, 0x0A, 0x49, 0x44, 0x41, 0x54,
        0x08, 0xD7, 0x63, 0x60, 0x00, 0x00, 0x00, 0x02, 0x00, 0x01,
        0xE2, 0x21, 0xBC, 0x33,
        0x00, 0x00, 0x00, 0x00, 0x49, 0x45, 0x4E, 0x44,
        0xAE, 0x42, 0x60, 0x82,
    ]
}

/// The instruction of a health probe.
pub open spec fn probe_instruction() -> Seq<char> {
    "health_check"@
}

/// The query that tests whether the backend is alive. It is an ordinary
/// vision query, so that it fails whenever a real call would.
pub fn health_probe() -> (query: VisionQuery)
    ensures
        query.screenshot@ == probe_image(),
        query.instruction.is_some(),
        query.instruction.unwrap()@ == probe_instruction(),
{
    let screenshot: Vec<u8> = vec![
        0x89u8, 0x50, 0x4E, 0x47, 0x0D, 0x0A, 0x1A, 0x0A,
        0x00, 0x00, 0x00, 0x0D, 0x49, 0x48, 0x44, 0x52,
        0x00, 0x00, 0x00, 0x01, 0x00, 0x00, 0x00, 0x01,
        0x08, 0x00, 0x00, 0x00, 0x00, 0x3A, 0x7E, 0x9B, 0x55,
        0x00, 0x00, 0x00, 0x0A, 0x49, 0x44, 0x41, 0x54,
        0x08, 0xD7, 0x63, 0x60, 0x00, 0x00, 0x00, 0x02, 0x00, 0x01,
        0xE2, 0x21, 0xBC, 0x33,
        0x00, 0x00, 0x00, 0x00, 0x49, 0x45, 0x4E, 0x44,
        0xAE, 0x42, 0x60, 0x82,
    ];
    VisionQuery { screenshot, instruction: Some("health_check".to_owned()) }
}

/// Whether a health probe found the backend alive: any answer counts,
/// also one that found nothing in the image.
pub fn probe_passed(outcome: &Result<VisionResult, StatusCode>) -> (passed: bool)
    ensures
        passed == outcome.is_ok(),
{
    match outcome {
        Ok(_) => true,
        Err(_) => false,
    }
}

} // verus!

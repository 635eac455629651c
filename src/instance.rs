use vstd::prelude::*;

use crate::adapter::{DeviceConnecter, QueueFamilyProperties};
use crate::error::{NxError, NxResult};

verus! {

/// The capabilities that a queue family must have, each matched exactly.
#[derive(Clone, Copy, Debug, PartialEq, Eq, Structural)]
pub struct RequestConnecterDescriptor {
    pub is_graphic_support: bool,
    pub is_compute_support: bool,
    pub is_transfer_support: bool,
}

impl RequestConnecterDescriptor {
    /// A request for a family with graphics, compute and transfer support.
    pub fn new() -> (d: Self)
        ensures
            d.is_graphic_support && d.is_compute_support && d.is_transfer_support,
    {
        RequestConnecterDescriptor {
            is_graphic_support: true,
            is_compute_support: true,
            is_transfer_support: true,
        }
    }

    pub fn graphic_support(self, is_graphic_support: bool) -> (d: Self)
        ensures
            d == (Self { is_graphic_support, ..self }),
    {
        Self { is_graphic_support, ..self }
    }

    pub fn compute_support(self, is_compute_support: bool) -> (d: Self)
        ensures
            d == (Self { is_compute_support, ..self }),
    {
        Self { is_compute_support, ..self }
    }

    pub fn transfer_support(self, is_transfer_support: bool) -> (d: Self)
        ensures
            d == (Self { is_transfer_support, ..self }),
    {
        Self { is_transfer_support, ..self }
    }
}

impl Default for RequestConnecterDescriptor {
    fn default() -> (d: Self)
        ensures
            d.is_graphic_support && d.is_compute_support && d.is_transfer_support,
    {
        Self::new()
    }
}

/// A family answers a request when each of its three capabilities equals
/// the requested one (equality, not "at least").
pub open spec fn family_matches(p: QueueFamilyProperties, d: RequestConnecterDescriptor) -> bool {
    &&& p.graphic_support == d.is_graphic_support
    &&& p.compute_support == d.is_compute_support
    &&& p.transfer_support == d.is_transfer_support
}

/// `(a, f)` names a family of the table.
pub open spec fn in_table(table: Seq<Vec<QueueFamilyProperties>>, a: int, f: int) -> bool {
    0 <= a < table.len() && 0 <= f < table[a]@.len()
}

/// `(a2, f2)` comes before `(a, f)` in enumeration order: adapters first,
/// then families within an adapter.
pub open spec fn scanned_before(a2: int, f2: int, a: int, f: int) -> bool {
    a2 < a || (a2 == a && f2 < f)
}

/// Some family of the table answers the request.
pub open spec fn any_match(table: Seq<Vec<QueueFamilyProperties>>, d: RequestConnecterDescriptor) -> bool {
    exists|a: int, f: int| in_table(table, a, f) && family_matches(#[trigger] table[a]@[f], d)
}

/// `(a, f)` is the first family of the table, in enumeration order, that
/// answers the request.
pub open spec fn is_first_match(
    table: Seq<Vec<QueueFamilyProperties>>,
    d: RequestConnecterDescriptor,
    a: int,
    f: int,
) -> bool {
    &&& in_table(table, a, f)
    &&& family_matches(table[a]@[f], d)
    &&& forall|a2: int, f2: int|
        in_table(table, a2, f2) && scanned_before(a2, f2, a, f) ==> !family_matches(
            #[trigger] table[a2]@[f2],
            d,
        )
}

/// The connecter of the adapter at place `i`, with queue family 0.
pub open spec fn default_connecter(i: int) -> DeviceConnecter {
    DeviceConnecter { adapter_index: i as usize, queue_family_index: 0 }
}

/// The connecters of `adapter_count` enumerated adapters, in enumeration
/// order, each with queue family 0; `NoValue` when there is none.
pub fn enumerate_connecters(adapter_count: usize) -> (r: NxResult<Vec<DeviceConnecter>>)
    ensures
        adapter_count == 0 ==> r == Err::<Vec<DeviceConnecter>, NxError>(NxError::NoValue),
        adapter_count > 0 ==> r is Ok && r->Ok_0@.len() == adapter_count && forall|i: int|
            0 <= i < adapter_count ==> #[trigger] r->Ok_0@[i] == default_connecter(i),
{
    if adapter_count == 0 {
        return Err(NxError::NoValue);
    }
    let mut v: Vec<DeviceConnecter> = Vec::new();
    let mut i: usize = 0;
    while i < adapter_count
        invariant
            i <= adapter_count,
            v@.len() == i,
            forall|j: int|
                0 <= j < i ==> #[trigger] v@[j] == default_connecter(j),
        decreases adapter_count - i,
    {
        v.push(DeviceConnecter { adapter_index: i, queue_family_index: 0 });
        i = i + 1;
    }
    Ok(v)
}

/// The capabilities of an adapter's queue families, from the driver's
/// `(capability bits, queue count)` pairs; `NoValue` when there is none.
pub fn get_queue_family_properties(raw: &[(u32, u32)]) -> (r: NxResult<Vec<QueueFamilyProperties>>)
    ensures
        raw@.len() == 0 ==> r == Err::<Vec<QueueFamilyProperties>, NxError>(NxError::NoValue),
        raw@.len() > 0 ==> r is Ok && r->Ok_0@.len() == raw@.len() && forall|i: int|
            0 <= i < raw@.len() ==> #[trigger] r->Ok_0@[i] == QueueFamilyProperties::from_flags_spec(
                raw@[i].0,
                raw@[i].1,
            ),
{
    if raw.len() == 0 {
        return Err(NxError::NoValue);
    }
    let mut v: Vec<QueueFamilyProperties> = Vec::new();
    let mut i: usize = 0;
    while i < raw.len()
        invariant
            i <= raw@.len(),
            v@.len() == i,
            forall|j: int|
                0 <= j < i ==> #[trigger] v@[j] == QueueFamilyProperties::from_flags_spec(
                    raw@[j].0,
                    raw@[j].1,
                ),
        decreases raw@.len() - i,
    {
        let (flags, count) = raw[i];
        v.push(QueueFamilyProperties::from_flags(flags, count));
        i = i + 1;
    }
    Ok(v)
}

/// The first family, scanning adapters and then their families in
/// enumeration order, whose three capabilities equal the request;
/// `NoValue` when no family of any adapter does. `table[a]` lists the
/// families of adapter `a`.
pub fn request_connecter(
    table: &[Vec<QueueFamilyProperties>],
    descriptor: &RequestConnecterDescriptor,
) -> (r: NxResult<DeviceConnecter>)
    ensures
        match r {
            Ok(c) => is_first_match(
                table@,
                *descriptor,
                c.adapter_index as int,
                c.queue_family_index as int,
            ),
            Err(e) => e == NxError::NoValue && !any_match(table@, *descriptor),
        },
{
    let mut a: usize = 0;
    while a < table.len()
        invariant
            a <= table@.len(),
            forall|a2: int, f2: int|
                in_table(table@, a2, f2) && a2 < a ==> !family_matches(
                    #[trigger] table@[a2]@[f2],
                    *descriptor,
                ),
        decreases table@.len() - a,
    {
        let families = &table[a];
        let mut f: usize = 0;
        while f < families.len()
            invariant
                a < table@.len(),
                families@ == table@[a as int]@,
                f <= families@.len(),
                forall|a2: int, f2: int|
                    in_table(table@, a2, f2) && scanned_before(a2, f2, a as int, f as int)
                        ==> !family_matches(#[trigger] table@[a2]@[f2], *descriptor),
            decreases families@.len() - f,
        {
            let p = &families[f];
            if p.graphic_support == descriptor.is_graphic_support
                && p.compute_support == descriptor.is_compute_support
                && p.transfer_support == descriptor.is_transfer_support {
                return Ok(DeviceConnecter { adapter_index: a, queue_family_index: f });
            }
            f = f + 1;
        }
        a = a + 1;
    }
    Err(NxError::NoValue)
}

} // verus!

verus! {

/// For each request in order, the first family of the table that answers
/// it; `NoValue` when some request is answered by no family.
pub fn request_connecters(
    table: &[Vec<QueueFamilyProperties>],
    descriptors: &[RequestConnecterDescriptor],
) -> (r: NxResult<Vec<DeviceConnecter>>)
    ensures
        r is Ok <==> forall|i: int| 0 <= i < descriptors@.len() ==> any_match(table@, #[trigger] descriptors@[i]),
        r is Err ==> r == Err::<Vec<DeviceConnecter>, NxError>(NxError::NoValue),
        r is Ok ==> r->Ok_0@.len() == descriptors@.len() && forall|i: int|
            0 <= i < descriptors@.len() ==> is_first_match(
                table@,
                #[trigger] descriptors@[i],
                r->Ok_0@[i].adapter_index as int,
                r->Ok_0@[i].queue_family_index as int,
            ),
{
    let mut v: Vec<DeviceConnecter> = Vec::new();
    let mut i: usize = 0;
    while i < descriptors.len()
        invariant
            i <= descriptors@.len(),
            v@.len() == i,
            forall|j: int| 0 <= j < i ==> any_match(table@, #[trigger] descriptors@[j]),
            forall|j: int|
                0 <= j < i ==> is_first_match(
                    table@,
                    #[trigger] descriptors@[j],
                    v@[j].adapter_index as int,
                    v@[j].queue_family_index as int,
                ),
        decreases descriptors@.len() - i,
    {
        match request_connecter(table, &descriptors[i]) {
            Ok(c) => {
                v.push(c);
            },
            Err(e) => {
                return Err(e);
            },
        }
        i = i + 1;
    }
    Ok(v)
}

} // verus!

verus! {

/// The major number of a packed API version.
pub open spec fn version_major(v: u32) -> u32 {
    (v >> 22u32) & 0x7fu32
}

/// The minor number of a packed API version.
pub open spec fn version_minor(v: u32) -> u32 {
    (v >> 12u32) & 0x3ffu32
}

/// The patch number of a packed API version.
pub open spec fn version_patch(v: u32) -> u32 {
    v & 0xfffu32
}

/// The major, minor and patch numbers of a packed API version.
pub fn api_version_parts(version: u32) -> (r: (u32, u32, u32))
    ensures
        r == (version_major(version), version_minor(version), version_patch(version)),
{
    ((version >> 22u32) & 0x7fu32, (version >> 12u32) & 0x3ffu32, version & 0xfffu32)
}

/// How important a driver diagnostic message is.
#[derive(Clone, Copy, Debug, PartialEq, Eq, Structural)]
pub enum MessageLevel {
    Verbose,
    Info,
    Warning,
    Error,
}

/// Diagnostic severity bit: verbose.
pub const MESSAGE_SEVERITY_VERBOSE: u32 = 0x1;

/// Diagnostic severity bit: information.
pub const MESSAGE_SEVERITY_INFO: u32 = 0x10;

/// Diagnostic severity bit: warning.
pub const MESSAGE_SEVERITY_WARNING: u32 = 0x100;

/// Diagnostic severity bit: error.
pub const MESSAGE_SEVERITY_ERROR: u32 = 0x1000;

/// The level at which a driver diagnostic of `severity` is logged; `None`
/// for a severity that is not exactly one of the four known ones.
pub fn message_level(severity: u32) -> (r: Option<MessageLevel>)
    ensures
        severity == MESSAGE_SEVERITY_VERBOSE ==> r == Some(MessageLevel::Verbose),
        severity == MESSAGE_SEVERITY_INFO ==> r == Some(MessageLevel::Info),
        severity == MESSAGE_SEVERITY_WARNING ==> r == Some(MessageLevel::Warning),
        severity == MESSAGE_SEVERITY_ERROR ==> r == Some(MessageLevel::Error),
        r is Some <==> (severity == MESSAGE_SEVERITY_VERBOSE || severity == MESSAGE_SEVERITY_INFO
            || severity == MESSAGE_SEVERITY_WARNING || severity == MESSAGE_SEVERITY_ERROR),
{
    if severity == MESSAGE_SEVERITY_VERBOSE {
        Some(MessageLevel::Verbose)
    } else if severity == MESSAGE_SEVERITY_INFO {
        Some(MessageLevel::Info)
    } else if severity == MESSAGE_SEVERITY_WARNING {
        Some(MessageLevel::Warning)
    } else if severity == MESSAGE_SEVERITY_ERROR {
        Some(MessageLevel::Error)
    } else {
        None
    }
}

fn bytes_equal(a: &[u8], b: &[u8]) -> (r: bool)
    ensures
        r == (a@ == b@),
{
    if a.len() != b.len() {
        return false;
    }
    let mut i: usize = 0;
    while i < a.len()
        invariant
            a@.len() == b@.len(),
            i <= a@.len(),
            forall|j: int| 0 <= j < i ==> a@[j] == b@[j],
        decreases a@.len() - i,
    {
        if a[i] != b[i] {
            return false;
        }
        i = i + 1;
    }
    assert(a@ =~= b@);
    true
}

/// Whether an adapter that offers the extensions named in `available` offers
/// the one named `wanted`: names are compared byte for byte.
pub fn has_extension(available: &[Vec<u8>], wanted: &[u8]) -> (r: bool)
    ensures
        r == exists|i: int| 0 <= i < available@.len() && (#[trigger] available@[i])@ == wanted@,
{
    let mut i: usize = 0;
    while i < available.len()
        invariant
            i <= available@.len(),
            forall|j: int| 0 <= j < i ==> (#[trigger] available@[j])@ != wanted@,
        decreases available@.len() - i,
    {
        if bytes_equal(available[i].as_slice(), wanted) {
            return true;
        }
        i = i + 1;
    }
    false
}

} // verus!

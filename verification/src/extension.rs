use vstd::prelude::*;
use vstd::slice::slice_subrange;
use crate::wire::{push_all, read_be16, u16_at};

verus! {

/// The length of the header of the extension structure, and of the header of each object.
pub const HEADER_SIZE: usize = 4;

/// The class number of an MPLS label stack object.
pub const CLASS_MPLS_LABEL_STACK: u8 = 1;

/// One entry of an MPLS label stack.
#[derive(Debug, Clone, Copy, PartialEq, Eq, Structural)]
pub struct MplsLabelStackMember {
    /// The label, 20 bits.
    pub label: u32,
    /// The experimental bits, 3 bits.
    pub exp: u8,
    /// The bottom-of-stack flag, 1 bit.
    pub bos: u8,
    /// The time to live.
    pub ttl: u8,
}

/// An MPLS label stack, the top entry first.
#[derive(Debug, Clone, PartialEq, Eq)]
pub struct MplsLabelStack {
    pub members: Vec<MplsLabelStackMember>,
}

/// An extension object of a class that is not interpreted, kept as it came.
#[derive(Debug, Clone, PartialEq, Eq)]
pub struct UnknownExtension {
    pub class_num: u8,
    pub class_subtype: u8,
    pub bytes: Vec<u8>,
}

/// One extension object.
#[derive(Debug, Clone, PartialEq, Eq)]
pub enum Extension {
    Unknown(UnknownExtension),
    Mpls(MplsLabelStack),
}

/// The extension objects of one ICMP message, in the order in which they came.
#[derive(Debug, Clone, PartialEq, Eq)]
pub struct Extensions {
    pub extensions: Vec<Extension>,
}

/// The reason why an extension structure was not understood.
#[derive(Debug, Clone, Copy, PartialEq, Eq, Structural)]
pub enum ExtensionParseError {
    /// The structure is shorter than its header.
    MissingHeader,
    /// An object's header is cut short, or its length field is below four or runs past the
    /// end of the structure.
    MalformedObject,
    /// The body of an MPLS label stack object is not a whole number of entries.
    MalformedLabelStack,
}

/// What an extension object holds.
pub enum ExtensionView {
    Unknown { class_num: u8, class_subtype: u8, bytes: Seq<u8> },
    Mpls { members: Seq<MplsLabelStackMember> },
}

impl View for Extension {
    type V = ExtensionView;

    open spec fn view(&self) -> ExtensionView {
        match self {
            Extension::Unknown(u) => ExtensionView::Unknown {
                class_num: u.class_num,
                class_subtype: u.class_subtype,
                bytes: u.bytes@,
            },
            Extension::Mpls(m) => ExtensionView::Mpls { members: m.members@ },
        }
    }
}

impl View for Extensions {
    type V = Seq<ExtensionView>;

    open spec fn view(&self) -> Seq<ExtensionView> {
        self.extensions@.map_values(|e: Extension| e@)
    }
}

/// The label stack entry that the four bytes of `body` at `i` spell: 20 bits of label, 3
/// experimental bits, the bottom-of-stack bit, and 8 bits of time to live.
pub open spec fn mpls_member_at(body: Seq<u8>, i: int) -> MplsLabelStackMember {
    MplsLabelStackMember {
        label: (body[i] as int * 4096 + body[i + 1] as int * 16 + body[i + 2] as int / 16) as u32,
        exp: (body[i + 2] / 2) % 8,
        bos: body[i + 2] % 2,
        ttl: body[i + 3],
    }
}

/// The label stack entries that `body` spells, four bytes each.
pub open spec fn mpls_members(body: Seq<u8>) -> Seq<MplsLabelStackMember> {
    Seq::new(body.len() / 4, |k: int| mpls_member_at(body, 4 * k))
}

/// What an object of class `class_num` and subtype `class_subtype` with the body `body`
/// holds: a label stack for class 1, if the body is a whole number of entries; for any other
/// class the body as it is.
pub open spec fn object_view(class_num: u8, class_subtype: u8, body: Seq<u8>) -> Result<
    ExtensionView,
    ExtensionParseError,
> {
    if class_num == CLASS_MPLS_LABEL_STACK {
        if body.len() % 4 == 0 {
            Ok(ExtensionView::Mpls { members: mpls_members(body) })
        } else {
            Err(ExtensionParseError::MalformedLabelStack)
        }
    } else {
        Ok(ExtensionView::Unknown { class_num, class_subtype, bytes: body })
    }
}

/// `first` put before what `rest` holds, or the error of `rest`.
pub open spec fn prepended(
    first: Seq<ExtensionView>,
    rest: Result<Seq<ExtensionView>, ExtensionParseError>,
) -> Result<Seq<ExtensionView>, ExtensionParseError> {
    match rest {
        Ok(r) => Ok(first + r),
        Err(e) => Err(e),
    }
}

/// The objects that stand in `ext` from `offset` on. Each starts with a length of two bytes,
/// which counts its own four header bytes, a class number and a subtype. The first object
/// that is malformed makes the whole an error.
pub open spec fn parse_objects(ext: Seq<u8>, offset: int) -> Result<
    Seq<ExtensionView>,
    ExtensionParseError,
>
    decreases ext.len() - offset,
{
    if offset >= ext.len() {
        Ok(Seq::empty())
    } else if offset < 0 || offset + HEADER_SIZE > ext.len() {
        Err(ExtensionParseError::MalformedObject)
    } else {
        let length = u16_at(ext, offset) as int;
        if length < HEADER_SIZE || offset + length > ext.len() {
            Err(ExtensionParseError::MalformedObject)
        } else {
            match object_view(
                ext[offset + 2],
                ext[offset + 3],
                ext.subrange(offset + HEADER_SIZE, offset + length),
            ) {
                Ok(first) => prepended(seq![first], parse_objects(ext, offset + length)),
                Err(e) => Err(e),
            }
        }
    }
}

/// The objects of the extension structure `ext`, which stand behind its four header bytes.
pub open spec fn parse_extensions(ext: Seq<u8>) -> Result<
    Seq<ExtensionView>,
    ExtensionParseError,
> {
    if ext.len() < HEADER_SIZE {
        Err(ExtensionParseError::MissingHeader)
    } else {
        parse_objects(ext, HEADER_SIZE as int)
    }
}

/// Reads the label stack entries of `body`.
fn parse_label_stack(body: &[u8]) -> (r: MplsLabelStack)
    requires
        body@.len() % 4 == 0,
    ensures
        r.members@ == mpls_members(body@),
{
    let n: usize = body.len();
    let count: usize = n / 4;
    let mut members: Vec<MplsLabelStackMember> = Vec::new();
    let mut k: usize = 0;
    while k < count
        invariant
            n == body@.len(),
            4 * count == n,
            k <= count,
            members@.len() == k,
            forall|j: int| 0 <= j < k ==> members@[j] == mpls_member_at(body@, 4 * j),
        decreases count - k,
    {
        let i: usize = 4 * k;
        let b0: u32 = body[i] as u32;
        let b1: u32 = body[i + 1] as u32;
        let b2: u8 = body[i + 2];
        let member = MplsLabelStackMember {
            label: b0 * 4096 + b1 * 16 + (b2 / 16) as u32,
            exp: (b2 / 2) % 8,
            bos: b2 % 2,
            ttl: body[i + 3],
        };
        members.push(member);
        k = k + 1;
    }
    assert(members@ =~= mpls_members(body@));
    MplsLabelStack { members }
}

/// Reads one object from its class, subtype and body.
fn parse_object(class_num: u8, class_subtype: u8, body: &[u8]) -> (r: Result<
    Extension,
    ExtensionParseError,
>)
    ensures
        r is Ok <==> object_view(class_num, class_subtype, body@) is Ok,
        r is Ok ==> r->Ok_0@ == object_view(class_num, class_subtype, body@)->Ok_0,
        r is Err ==> object_view(class_num, class_subtype, body@) == Err::<
            ExtensionView,
            ExtensionParseError,
        >(r->Err_0),
{
    if class_num == CLASS_MPLS_LABEL_STACK {
        if body.len() % 4 == 0 {
            Ok(Extension::Mpls(parse_label_stack(body)))
        } else {
            Err(ExtensionParseError::MalformedLabelStack)
        }
    } else {
        let mut bytes: Vec<u8> = Vec::new();
        push_all(&mut bytes, body);
        assert(bytes@ =~= body@);
        Ok(Extension::Unknown(UnknownExtension { class_num, class_subtype, bytes }))
    }
}

impl Extensions {
    /// Reads the objects of the extension structure `ext`. The result is the list of objects
    /// where every one of them is well formed, and else the error of the first that is not.
    pub fn try_from(ext: &[u8]) -> (r: Result<Extensions, ExtensionParseError>)
        ensures
            r is Ok <==> parse_extensions(ext@) is Ok,
            r is Ok ==> r->Ok_0@ == parse_extensions(ext@)->Ok_0,
            r is Err ==> parse_extensions(ext@) == Err::<Seq<ExtensionView>, ExtensionParseError>(
                r->Err_0,
            ),
    {
        let n = ext.len();
        if n < HEADER_SIZE {
            return Err(ExtensionParseError::MissingHeader);
        }
        let mut out: Vec<Extension> = Vec::new();
        let mut offset: usize = HEADER_SIZE;
        assert(out@.map_values(|e: Extension| e@) =~= Seq::<ExtensionView>::empty());
        assert(Seq::<ExtensionView>::empty() + parse_objects(ext@, 4)->Ok_0 =~= parse_objects(
            ext@,
            4,
        )->Ok_0);
        while offset < n
            invariant
                n == ext@.len(),
                HEADER_SIZE <= offset <= n,
                parse_objects(ext@, HEADER_SIZE as int) == prepended(
                    out@.map_values(|e: Extension| e@),
                    parse_objects(ext@, offset as int),
                ),
            decreases n - offset,
        {
            if n - offset < HEADER_SIZE {
                return Err(ExtensionParseError::MalformedObject);
            }
            let length: usize = read_be16(ext, offset) as usize;
            if length < HEADER_SIZE || length > n - offset {
                return Err(ExtensionParseError::MalformedObject);
            }
            let body = slice_subrange(ext, offset + HEADER_SIZE, offset + length);
            let object = match parse_object(ext[offset + 2], ext[offset + 3], body) {
                Ok(object) => object,
                Err(e) => {
                    return Err(e);
                },
            };
            proof {
                let before = out@.map_values(|e: Extension| e@);
                let after = out@.push(object).map_values(|e: Extension| e@);
                assert(after =~= before.push(object@));
                let rest = parse_objects(ext@, offset + length);
                if rest is Ok {
                    assert(before + (seq![object@] + rest->Ok_0) =~= after + rest->Ok_0);
                }
            }
            out.push(object);
            offset = offset + length;
        }
        proof {
            let all = out@.map_values(|e: Extension| e@);
            assert(all + Seq::<ExtensionView>::empty() =~= all);
        }
        Ok(Extensions { extensions: out })
    }
}

} // verus!

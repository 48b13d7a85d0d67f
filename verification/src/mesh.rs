//! The cooked greybox mesh vocabulary and the cooked `.mesh` blob parser.
//!
//! The cooked format (little-endian, a flat-shaded triangle soup):
//! ```text
//!   magic   : 4 bytes  b"GDM1"
//!   v_count : u32       number of vertices
//!   i_count : u32       number of indices
//!   verts   : v_count x [px,py,pz, nx,ny,nz]  f32   (24 bytes each)
//!   indices : i_count x u32
//! ```
//! The parser validates the header, the exact length and every index, and hands each vertex
//! component back as its raw little-endian 32-bit word (the IEEE-754 bit pattern of the `f32`),
//! so the GPU side reinterprets the words without any arithmetic on them.
use vstd::prelude::*;

verus! {

/// Magic bytes at the head of a cooked `.mesh` blob.
pub const MESH_MAGIC: [u8; 4] = [71u8, 68u8, 77u8, 49u8];

/// Number of LOD tiers the cook pipeline emits per model (LOD0 plus two decimated tiers).
pub const LOD_COUNT: usize = 3;

/// Every greybox model the cooked pipeline produces, in canonical (library index) order.
/// Faction silhouettes are appended after the shared kinds so earlier indices never move.
#[derive(Clone, Copy, Debug, PartialEq, Eq, Hash, Structural)]
pub enum ModelKind {
    Trooper,
    Tank,
    /// The tank's turret and barrel, drawn atop the hull and yawed independently.
    TankTurret,
    CampHq,
    WeaponRifle,
    Crate,
    Turret,
    Tree,
    Rock,
    Barricade,
    /// A tank-shell tracer bolt.
    Tracer,
    /// US Army infantry silhouette.
    TrooperUs,
    /// French Army infantry silhouette.
    TrooperFr,
    /// US hull.
    TankUs,
    /// US turret, yawed independently of its hull.
    TankTurretUs,
    /// French hull.
    TankFr,
    /// French turret, yawed independently of its hull.
    TankTurretFr,
    /// US first-person carbine.
    WeaponRifleUs,
    /// French first-person bullpup.
    WeaponRifleFr,
}

/// The canonical library index of a model.
pub open spec fn model_index(k: ModelKind) -> nat {
    match k {
        ModelKind::Trooper => 0,
        ModelKind::Tank => 1,
        ModelKind::TankTurret => 2,
        ModelKind::CampHq => 3,
        ModelKind::WeaponRifle => 4,
        ModelKind::Crate => 5,
        ModelKind::Turret => 6,
        ModelKind::Tree => 7,
        ModelKind::Rock => 8,
        ModelKind::Barricade => 9,
        ModelKind::Tracer => 10,
        ModelKind::TrooperUs => 11,
        ModelKind::TrooperFr => 12,
        ModelKind::TankUs => 13,
        ModelKind::TankTurretUs => 14,
        ModelKind::TankFr => 15,
        ModelKind::TankTurretFr => 16,
        ModelKind::WeaponRifleUs => 17,
        ModelKind::WeaponRifleFr => 18,
    }
}

/// Different models have different library indices.
pub proof fn lemma_model_index_injective(a: ModelKind, b: ModelKind)
    ensures
        model_index(a) == model_index(b) ==> a == b,
{
}

impl ModelKind {
    /// Every kind, in canonical order.
    pub const ALL: [ModelKind; 19] = [
        ModelKind::Trooper,
        ModelKind::Tank,
        ModelKind::TankTurret,
        ModelKind::CampHq,
        ModelKind::WeaponRifle,
        ModelKind::Crate,
        ModelKind::Turret,
        ModelKind::Tree,
        ModelKind::Rock,
        ModelKind::Barricade,
        ModelKind::Tracer,
        ModelKind::TrooperUs,
        ModelKind::TrooperFr,
        ModelKind::TankUs,
        ModelKind::TankTurretUs,
        ModelKind::TankFr,
        ModelKind::TankTurretFr,
        ModelKind::WeaponRifleUs,
        ModelKind::WeaponRifleFr,
    ];

    /// The model at canonical library index `i`, or `None` past the last one.
    pub fn from_index(i: u32) -> (r: Option<ModelKind>)
        ensures
            r is Some <==> i < 19,
            r is Some ==> model_index(r->0) == i,
    {
        match i {
            0 => Some(ModelKind::Trooper),
            1 => Some(ModelKind::Tank),
            2 => Some(ModelKind::TankTurret),
            3 => Some(ModelKind::CampHq),
            4 => Some(ModelKind::WeaponRifle),
            5 => Some(ModelKind::Crate),
            6 => Some(ModelKind::Turret),
            7 => Some(ModelKind::Tree),
            8 => Some(ModelKind::Rock),
            9 => Some(ModelKind::Barricade),
            10 => Some(ModelKind::Tracer),
            11 => Some(ModelKind::TrooperUs),
            12 => Some(ModelKind::TrooperFr),
            13 => Some(ModelKind::TankUs),
            14 => Some(ModelKind::TankTurretUs),
            15 => Some(ModelKind::TankFr),
            16 => Some(ModelKind::TankTurretFr),
            17 => Some(ModelKind::WeaponRifleUs),
            18 => Some(ModelKind::WeaponRifleFr),
            _ => None,
        }
    }

    /// The canonical library index of this model (its position in `ModelKind::ALL`).
    pub fn index(self) -> (r: usize)
        ensures
            r == model_index(self),
            r < 19,
    {
        match self {
            ModelKind::Trooper => 0,
            ModelKind::Tank => 1,
            ModelKind::TankTurret => 2,
            ModelKind::CampHq => 3,
            ModelKind::WeaponRifle => 4,
            ModelKind::Crate => 5,
            ModelKind::Turret => 6,
            ModelKind::Tree => 7,
            ModelKind::Rock => 8,
            ModelKind::Barricade => 9,
            ModelKind::Tracer => 10,
            ModelKind::TrooperUs => 11,
            ModelKind::TrooperFr => 12,
            ModelKind::TankUs => 13,
            ModelKind::TankTurretUs => 14,
            ModelKind::TankFr => 15,
            ModelKind::TankTurretFr => 16,
            ModelKind::WeaponRifleUs => 17,
            ModelKind::WeaponRifleFr => 18,
        }
    }
}

/// Why a cooked `.mesh` blob failed to parse.
#[derive(Clone, Copy, Debug, PartialEq, Eq, Structural)]
pub enum MeshParseError {
    /// Fewer than the 12-byte header.
    TooShort,
    /// Magic bytes are not `b"GDM1"`.
    BadMagic,
    /// The declared vertex/index counts don't match the blob length.
    LengthMismatch,
    /// An index points past the vertex array.
    IndexOutOfRange,
}

/// One cooked vertex: position then flat face normal, each component as the raw little-endian
/// 32-bit word of its `f32`.
#[derive(Clone, Copy, Debug, PartialEq, Eq)]
pub struct MeshVertexWords {
    pub pos: [u32; 3],
    pub normal: [u32; 3],
}

/// A parsed cooked mesh: a flat-shaded triangle soup.
#[derive(Clone, Debug, PartialEq, Eq)]
pub struct MeshCpu {
    pub vertices: Vec<MeshVertexWords>,
    pub indices: Vec<u32>,
}

/// The little-endian 32-bit word at byte offset `o`.
pub open spec fn le_word(b: Seq<u8>, o: int) -> nat {
    (b[o] as nat) + (b[o + 1] as nat) * 256 + (b[o + 2] as nat) * 65536 + (b[o + 3] as nat)
        * 16777216
}

/// Whether the blob opens with the `GDM1` magic (ASCII 71, 68, 77, 49).
pub open spec fn has_magic(b: Seq<u8>) -> bool {
    b[0] == 71 && b[1] == 68 && b[2] == 77 && b[3] == 49
}

/// The declared vertex count.
pub open spec fn vertex_count(b: Seq<u8>) -> nat {
    le_word(b, 4)
}

/// The declared index count.
pub open spec fn index_count(b: Seq<u8>) -> nat {
    le_word(b, 8)
}

/// Component `j` (`0..3` position, `3..6` normal) of vertex `k`.
pub open spec fn vertex_word(b: Seq<u8>, k: int, j: int) -> nat {
    le_word(b, 12 + 24 * k + 4 * j)
}

/// Index `k`.
pub open spec fn index_word(b: Seq<u8>, k: int) -> nat {
    le_word(b, 12 + 24 * vertex_count(b) + 4 * k)
}

/// What is wrong with a blob, checked in order: too short for the header, wrong magic, a length
/// other than the declared counts account for, or an index past the vertex array. `None` for a
/// well-formed blob.
pub open spec fn mesh_error(b: Seq<u8>) -> Option<MeshParseError> {
    if b.len() < 12 {
        Some(MeshParseError::TooShort)
    } else if !has_magic(b) {
        Some(MeshParseError::BadMagic)
    } else if 12 + 24 * vertex_count(b) + 4 * index_count(b) != b.len() {
        Some(MeshParseError::LengthMismatch)
    } else if exists|k: int| 0 <= k < index_count(b) && #[trigger] index_word(b, k) >= vertex_count(b) {
        Some(MeshParseError::IndexOutOfRange)
    } else {
        None
    }
}

/// `m` holds exactly the vertices and indices a well-formed blob declares.
pub open spec fn mesh_matches(m: MeshCpu, b: Seq<u8>) -> bool {
    &&& m.vertices@.len() == vertex_count(b)
    &&& m.indices@.len() == index_count(b)
    &&& forall|k: int, j: int|
        #![trigger m.vertices@[k].pos@[j]]
        0 <= k < vertex_count(b) && 0 <= j < 3 ==> m.vertices@[k].pos@[j] as nat
            == vertex_word(b, k, j) && m.vertices@[k].normal@[j] as nat == vertex_word(b, k, j + 3)
    &&& forall|k: int| 0 <= k < index_count(b) ==> (#[trigger] m.indices@[k]) as nat == index_word(b, k)
}

/// The little-endian word at `o`.
fn read_word(b: &[u8], o: usize) -> (r: u32)
    requires
        o + 4 <= b@.len(),
    ensures
        r as nat == le_word(b@, o as int),
{
    (b[o] as u32) + (b[o + 1] as u32) * 256 + (b[o + 2] as u32) * 65536 + (b[o + 3] as u32)
        * 16777216
}

impl MeshCpu {
    /// Parse a cooked `.mesh` blob: validates the magic, that the declared counts exactly account
    /// for the byte length, and that every index is in range. A malformed blob is a typed error.
    pub fn parse(bytes: &[u8]) -> (r: Result<MeshCpu, MeshParseError>)
        ensures
            match r {
                Ok(m) => mesh_error(bytes@) is None && mesh_matches(m, bytes@),
                Err(e) => mesh_error(bytes@) == Some(e),
            },
    {
        let ghost b = bytes@;
        if bytes.len() < 12 {
            return Err(MeshParseError::TooShort);
        }
        if !(bytes[0] == MESH_MAGIC[0] && bytes[1] == MESH_MAGIC[1] && bytes[2] == MESH_MAGIC[2]
            && bytes[3] == MESH_MAGIC[3]) {
            return Err(MeshParseError::BadMagic);
        }
        let v_count = read_word(bytes, 4);
        let i_count = read_word(bytes, 8);
        let expected: u64 = 12u64 + (v_count as u64) * 24 + (i_count as u64) * 4;
        if expected != bytes.len() as u64 {
            return Err(MeshParseError::LengthMismatch);
        }
        let vc = v_count as usize;
        let ic = i_count as usize;
        let n = bytes.len();
        let mut vertices: Vec<MeshVertexWords> = Vec::new();
        let mut k: usize = 0;
        while k < vc
            invariant
                b == bytes@,
                vc == vertex_count(b),
                ic == index_count(b),
                12 + 24 * vc + 4 * ic == b.len(),
                n == b.len(),
                k <= vc,
                vertices@.len() == k,
                forall|p: int, j: int|
                    #![trigger vertices@[p].pos@[j]]
                    0 <= p < k && 0 <= j < 3 ==> vertices@[p].pos@[j] as nat
                        == vertex_word(b, p, j) && vertices@[p].normal@[j] as nat == vertex_word(
                        b,
                        p,
                        j + 3,
                    ),
            decreases vc - k,
        {
            let o = 12 + k * 24;
            let p0 = read_word(bytes, o);
            let p1 = read_word(bytes, o + 4);
            let p2 = read_word(bytes, o + 8);
            let n0 = read_word(bytes, o + 12);
            let n1 = read_word(bytes, o + 16);
            let n2 = read_word(bytes, o + 20);
            let v = MeshVertexWords { pos: [p0, p1, p2], normal: [n0, n1, n2] };
            assert forall|j: int| 0 <= j < 3 implies v.pos@[j] as nat == vertex_word(b, k as int, j)
                && v.normal@[j] as nat == vertex_word(b, k as int, j + 3) by {
                if j == 0 {
                } else if j == 1 {
                } else {
                }
            }
            vertices.push(v);
            k = k + 1;
        }
        let ibase = 12 + vc * 24;
        let mut indices: Vec<u32> = Vec::new();
        let mut k: usize = 0;
        while k < ic
            invariant
                b == bytes@,
                vc == vertex_count(b),
                ic == index_count(b),
                12 + 24 * vc + 4 * ic == b.len(),
                n == b.len(),
                b.len() >= 12,
                has_magic(b),
                ibase == 12 + 24 * vc,
                k <= ic,
                indices@.len() == k,
                forall|p: int| 0 <= p < k ==> (#[trigger] indices@[p]) as nat == index_word(b, p),
                forall|p: int| 0 <= p < k ==> #[trigger] index_word(b, p) < vertex_count(b),
            decreases ic - k,
        {
            let idx = read_word(bytes, ibase + k * 4);
            if idx as usize >= vc {
                assert(index_word(b, k as int) >= vertex_count(b));
                return Err(MeshParseError::IndexOutOfRange);
            }
            indices.push(idx);
            k = k + 1;
        }
        Ok(MeshCpu { vertices, indices })
    }
}

} // verus!

//! The ragdoll's body: the capsule of each part, where it starts, and the
//! joints that tie the parts into one skeleton rooted at the torso.
//!
//! Lengths are whole centimetres; the engine side divides by 100 to get metres.
use vstd::prelude::*;

verus! {

/// One rigid piece of the ragdoll.
#[derive(Clone, Copy, Debug, PartialEq, Eq, Structural)]
pub enum BodyPart {
    Torso,
    LeftShoulder,
    LeftForearm,
    RightShoulder,
    RightForearm,
    LeftUpperLeg,
    LeftLowerLeg,
    RightUpperLeg,
    RightLowerLeg,
}

/// A point or an offset, in centimetres.
#[derive(Clone, Copy, Debug, PartialEq, Eq, Structural)]
pub struct Centimetres {
    pub x: i32,
    pub y: i32,
    pub z: i32,
}

/// The capsule collider and mesh of a part, and where it is spawned.
#[derive(Clone, Copy, Debug, PartialEq, Eq, Structural)]
pub struct PartShape {
    /// Centre of the capsule in world space at spawn time.
    pub position: Centimetres,
    pub radius: i32,
    /// Length of the capsule's cylindrical middle, caps excluded.
    pub height: i32,
    /// Whether gravity pulls the part (the torso floats; the limbs hang).
    pub falls: bool,
}

/// How a joint lets its two parts turn against each other.
#[derive(Clone, Copy, Debug, PartialEq, Eq, Structural)]
pub enum JointKind {
    /// Free rotation about the anchor (shoulders and hips).
    Spherical,
    /// Rotation about a single axis (elbows and knees).
    Revolute,
}

/// A joint from a parent part to a child part, each anchor given in the
/// local frame of its part.
#[derive(Clone, Copy, Debug, PartialEq, Eq, Structural)]
pub struct Joint {
    pub kind: JointKind,
    pub parent: BodyPart,
    pub child: BodyPart,
    pub parent_anchor: Centimetres,
    pub child_anchor: Centimetres,
}

/// A point or offset from whole centimetres that fit in an `i32`.
pub open spec fn cm(x: int, y: int, z: int) -> Centimetres {
    Centimetres { x: x as i32, y: y as i32, z: z as i32 }
}

/// The part that each part hangs from; the torso is the root.
pub open spec fn parent_of(p: BodyPart) -> Option<BodyPart> {
    match p {
        BodyPart::Torso => None,
        BodyPart::LeftShoulder => Some(BodyPart::Torso),
        BodyPart::RightShoulder => Some(BodyPart::Torso),
        BodyPart::LeftUpperLeg => Some(BodyPart::Torso),
        BodyPart::RightUpperLeg => Some(BodyPart::Torso),
        BodyPart::LeftForearm => Some(BodyPart::LeftShoulder),
        BodyPart::RightForearm => Some(BodyPart::RightShoulder),
        BodyPart::LeftLowerLeg => Some(BodyPart::LeftUpperLeg),
        BodyPart::RightLowerLeg => Some(BodyPart::RightUpperLeg),
    }
}

/// How many joints lie between a part and the torso.
pub open spec fn depth(p: BodyPart) -> nat {
    match p {
        BodyPart::Torso => 0,
        BodyPart::LeftShoulder | BodyPart::RightShoulder | BodyPart::LeftUpperLeg
        | BodyPart::RightUpperLeg => 1,
        _ => 2,
    }
}

/// The shape and spawn position of each part.
pub open spec fn shape_of(p: BodyPart) -> PartShape {
    match p {
        BodyPart::Torso => PartShape { position: cm(0, 150, 0), radius: 20, height: 50, falls: false },
        BodyPart::LeftShoulder => PartShape { position: cm(40, 170, 0), radius: 10, height: 30, falls: true },
        BodyPart::LeftForearm => PartShape { position: cm(40, 110, 0), radius: 10, height: 20, falls: true },
        BodyPart::RightShoulder => PartShape { position: cm(-40, 170, 0), radius: 10, height: 30, falls: true },
        BodyPart::RightForearm => PartShape { position: cm(-40, 110, 0), radius: 10, height: 20, falls: true },
        BodyPart::LeftUpperLeg => PartShape { position: cm(20, 60, 0), radius: 13, height: 30, falls: true },
        BodyPart::LeftLowerLeg => PartShape { position: cm(20, -10, 0), radius: 13, height: 30, falls: true },
        BodyPart::RightUpperLeg => PartShape { position: cm(-20, 60, 0), radius: 13, height: 30, falls: true },
        BodyPart::RightLowerLeg => PartShape { position: cm(-20, -10, 0), radius: 13, height: 30, falls: true },
    }
}

/// Where the joint to its parent sits on the parent, for each part but the torso.
pub open spec fn parent_anchor_of(p: BodyPart) -> Centimetres {
    match p {
        BodyPart::Torso => cm(0, 0, 0),
        BodyPart::LeftShoulder => cm(40, 50, 0),
        BodyPart::RightShoulder => cm(-40, 50, 0),
        BodyPart::LeftUpperLeg => cm(25, -40, 0),
        BodyPart::RightUpperLeg => cm(-25, -40, 0),
        BodyPart::LeftForearm | BodyPart::RightForearm => cm(0, -30, 0),
        BodyPart::LeftLowerLeg | BodyPart::RightLowerLeg => cm(0, -35, 0),
    }
}

/// Where the joint to its parent sits on the part itself.
pub open spec fn child_anchor_of(p: BodyPart) -> Centimetres {
    match p {
        BodyPart::Torso => cm(0, 0, 0),
        BodyPart::LeftShoulder | BodyPart::RightShoulder => cm(0, 20, 0),
        BodyPart::LeftUpperLeg | BodyPart::RightUpperLeg => cm(0, 40, 0),
        _ => cm(0, 25, 0),
    }
}

/// The joint that ties a part to its parent: spherical at the torso,
/// revolute further out. The torso has none.
pub open spec fn joint_to(p: BodyPart) -> Option<Joint> {
    match parent_of(p) {
        None => None,
        Some(parent) => Some(Joint {
            kind: if parent == BodyPart::Torso { JointKind::Spherical } else { JointKind::Revolute },
            parent,
            child: p,
            parent_anchor: parent_anchor_of(p),
            child_anchor: child_anchor_of(p),
        }),
    }
}

/// Every part but the torso, arms before legs, left before right, each
/// part before the one that hangs from it.
pub open spec fn limbs() -> Seq<BodyPart> {
    seq![
        BodyPart::LeftShoulder,
        BodyPart::LeftForearm,
        BodyPart::RightShoulder,
        BodyPart::RightForearm,
        BodyPart::LeftUpperLeg,
        BodyPart::LeftLowerLeg,
        BodyPart::RightUpperLeg,
        BodyPart::RightLowerLeg,
    ]
}

/// The skeleton's joints, one per limb, in the order of `limbs()`.
pub open spec fn skeleton() -> Seq<Joint> {
    limbs().map_values(|p: BodyPart| joint_to(p).unwrap())
}

/// The part that `p` hangs from, or `None` for the torso.
pub fn parent(p: BodyPart) -> (r: Option<BodyPart>)
    ensures
        r == parent_of(p),
{
    match p {
        BodyPart::Torso => None,
        BodyPart::LeftShoulder | BodyPart::RightShoulder | BodyPart::LeftUpperLeg
        | BodyPart::RightUpperLeg => Some(BodyPart::Torso),
        BodyPart::LeftForearm => Some(BodyPart::LeftShoulder),
        BodyPart::RightForearm => Some(BodyPart::RightShoulder),
        BodyPart::LeftLowerLeg => Some(BodyPart::LeftUpperLeg),
        BodyPart::RightLowerLeg => Some(BodyPart::RightUpperLeg),
    }
}

fn at(x: i32, y: i32, z: i32) -> (r: Centimetres)
    ensures
        r == cm(x as int, y as int, z as int),
{
    Centimetres { x, y, z }
}

impl BodyPart {
    /// The capsule of this part and where it is spawned.
    pub fn shape(self) -> (r: PartShape)
        ensures
            r == shape_of(self),
    {
        let (position, radius, height) = match self {
            BodyPart::Torso => (at(0, 150, 0), 20, 50),
            BodyPart::LeftShoulder => (at(40, 170, 0), 10, 30),
            BodyPart::LeftForearm => (at(40, 110, 0), 10, 20),
            BodyPart::RightShoulder => (at(-40, 170, 0), 10, 30),
            BodyPart::RightForearm => (at(-40, 110, 0), 10, 20),
            BodyPart::LeftUpperLeg => (at(20, 60, 0), 13, 30),
            BodyPart::LeftLowerLeg => (at(20, -10, 0), 13, 30),
            BodyPart::RightUpperLeg => (at(-20, 60, 0), 13, 30),
            BodyPart::RightLowerLeg => (at(-20, -10, 0), 13, 30),
        };
        let falls = match self {
            BodyPart::Torso => false,
            _ => true,
        };
        PartShape { position, radius, height, falls }
    }

    /// The joint that ties this part to its parent, or `None` for the torso.
    pub fn joint(self) -> (r: Option<Joint>)
        ensures
            r == joint_to(self),
    {
        let parent = match parent(self) {
            None => return None,
            Some(q) => q,
        };
        let kind = match parent {
            BodyPart::Torso => JointKind::Spherical,
            _ => JointKind::Revolute,
        };
        let parent_anchor = match self {
            BodyPart::LeftShoulder => at(40, 50, 0),
            BodyPart::RightShoulder => at(-40, 50, 0),
            BodyPart::LeftUpperLeg => at(25, -40, 0),
            BodyPart::RightUpperLeg => at(-25, -40, 0),
            BodyPart::LeftForearm | BodyPart::RightForearm => at(0, -30, 0),
            _ => at(0, -35, 0),
        };
        let child_anchor = match self {
            BodyPart::LeftShoulder | BodyPart::RightShoulder => at(0, 20, 0),
            BodyPart::LeftUpperLeg | BodyPart::RightUpperLeg => at(0, 40, 0),
            _ => at(0, 25, 0),
        };
        Some(Joint { kind, parent, child: self, parent_anchor, child_anchor })
    }
}

/// Every part but the torso, in the order of `limbs()`.
pub fn limb_parts() -> (r: Vec<BodyPart>)
    ensures
        r@ == limbs(),
{
    let r = vec![
        BodyPart::LeftShoulder,
        BodyPart::LeftForearm,
        BodyPart::RightShoulder,
        BodyPart::RightForearm,
        BodyPart::LeftUpperLeg,
        BodyPart::LeftLowerLeg,
        BodyPart::RightUpperLeg,
        BodyPart::RightLowerLeg,
    ];
    assert(r@ =~= limbs());
    r
}

/// The skeleton's joints, one per limb, in the order of `limbs()`.
pub fn joints() -> (r: Vec<Joint>)
    ensures
        r@ == skeleton(),
{
    let parts = limb_parts();
    let mut r: Vec<Joint> = Vec::new();
    let mut i: usize = 0;
    while i < parts.len()
        invariant
            parts@ == limbs(),
            i <= parts@.len(),
            r@ == skeleton().take(i as int),
        decreases parts@.len() - i,
    {
        let p = parts[i];
        assert(p != BodyPart::Torso);
        r.push(p.joint().unwrap());
        i += 1;
        assert(r@ =~= skeleton().take(i as int));
    }
    assert(skeleton().take(8) =~= skeleton());
    r
}

/// The limbs are exactly the parts other than the torso, each listed once.
pub proof fn lemma_limbs_are_the_other_parts()
    ensures
        limbs().len() == 8,
        limbs().no_duplicates(),
        forall|p: BodyPart| limbs().contains(p) <==> p != BodyPart::Torso,
{
    let l = limbs();
    assert forall|p: BodyPart| l.contains(p) <==> p != BodyPart::Torso by {
        if p != BodyPart::Torso {
            match p {
                BodyPart::LeftShoulder => assert(l[0] == p),
                BodyPart::LeftForearm => assert(l[1] == p),
                BodyPart::RightShoulder => assert(l[2] == p),
                BodyPart::RightForearm => assert(l[3] == p),
                BodyPart::LeftUpperLeg => assert(l[4] == p),
                BodyPart::LeftLowerLeg => assert(l[5] == p),
                BodyPart::RightUpperLeg => assert(l[6] == p),
                _ => assert(l[7] == p),
            }
        }
    }
}

proof fn lemma_skeleton_entry(i: int)
    requires
        0 <= i < 8,
    ensures
        skeleton().len() == 8,
        skeleton()[i] == joint_to(limbs()[i]).unwrap(),
        skeleton()[i].child == limbs()[i],
        limbs()[i] != BodyPart::Torso,
        parent_of(limbs()[i]) == Some(skeleton()[i].parent),
        depth(skeleton()[i].parent) + 1 == depth(limbs()[i]),
{
    let l = limbs();
    if i == 0 { assert(l[i] == BodyPart::LeftShoulder); }
    else if i == 1 { assert(l[i] == BodyPart::LeftForearm); }
    else if i == 2 { assert(l[i] == BodyPart::RightShoulder); }
    else if i == 3 { assert(l[i] == BodyPart::RightForearm); }
    else if i == 4 { assert(l[i] == BodyPart::LeftUpperLeg); }
    else if i == 5 { assert(l[i] == BodyPart::LeftLowerLeg); }
    else if i == 6 { assert(l[i] == BodyPart::RightUpperLeg); }
    else { assert(l[i] == BodyPart::RightLowerLeg); }
}

proof fn lemma_joints_step_outward()
    ensures
        skeleton().len() == 8,
        forall|i: int| 0 <= i < 8 ==> (#[trigger] skeleton()[i]).child != BodyPart::Torso,
        forall|i: int| 0 <= i < 8 ==> parent_of(#[trigger] skeleton()[i].child) == Some(skeleton()[i].parent),
        forall|i: int| 0 <= i < 8 ==> depth(skeleton()[i].parent) + 1 == depth(#[trigger] skeleton()[i].child),
{
    lemma_skeleton_entry(0);
    assert forall|i: int| 0 <= i < 8 implies (#[trigger] skeleton()[i]).child != BodyPart::Torso
        && parent_of(skeleton()[i].child) == Some(skeleton()[i].parent)
        && depth(skeleton()[i].parent) + 1 == depth(skeleton()[i].child) by {
        lemma_skeleton_entry(i);
    }
}

proof fn lemma_every_limb_has_a_joint()
    ensures
        forall|p: BodyPart| #[trigger] parent_of(p) is Some ==> exists|i: int| 0 <= i < 8 && #[trigger] skeleton()[i].child == p,
{
    lemma_limbs_are_the_other_parts();
    assert forall|p: BodyPart| #[trigger] parent_of(p) is Some implies exists|i: int| 0 <= i < 8 && #[trigger] skeleton()[i].child == p by {
        assert(limbs().contains(p));
        let i = choose|i: int| 0 <= i < limbs().len() && limbs()[i] == p;
        lemma_skeleton_entry(i);
    }
}

proof fn lemma_one_joint_per_limb()
    ensures
        forall|i: int, k: int| 0 <= i < 8 && 0 <= k < 8 && #[trigger] skeleton()[i].child == #[trigger] skeleton()[k].child ==> i == k,
{
    lemma_limbs_are_the_other_parts();
    assert forall|i: int, k: int| 0 <= i < 8 && 0 <= k < 8 && #[trigger] skeleton()[i].child == #[trigger] skeleton()[k].child implies i == k by {
        lemma_skeleton_entry(i);
        lemma_skeleton_entry(k);
    }
}

proof fn lemma_parents_come_first()
    ensures
        forall|i: int| 0 <= i < 8 ==> (#[trigger] skeleton()[i].parent == BodyPart::Torso
            || exists|k: int| 0 <= k < i && #[trigger] skeleton()[k].child == skeleton()[i].parent),
{
    assert forall|i: int| 0 <= i < 8 implies (#[trigger] skeleton()[i].parent == BodyPart::Torso
        || exists|k: int| 0 <= k < i && #[trigger] skeleton()[k].child == skeleton()[i].parent) by {
        lemma_skeleton_entry(i);
        if i % 2 == 1 {
            lemma_skeleton_entry(i - 1);
            let l = limbs();
            if i == 1 { assert(l[i] == BodyPart::LeftForearm && l[i - 1] == BodyPart::LeftShoulder); }
            else if i == 3 { assert(l[i] == BodyPart::RightForearm && l[i - 1] == BodyPart::RightShoulder); }
            else if i == 5 { assert(l[i] == BodyPart::LeftLowerLeg && l[i - 1] == BodyPart::LeftUpperLeg); }
            else { assert(l[i] == BodyPart::RightLowerLeg && l[i - 1] == BodyPart::RightUpperLeg); }
        } else {
            let l = limbs();
            if i == 0 { assert(l[i] == BodyPart::LeftShoulder); }
            else if i == 2 { assert(l[i] == BodyPart::RightShoulder); }
            else if i == 4 { assert(l[i] == BodyPart::LeftUpperLeg); }
            else { assert(l[i] == BodyPart::RightUpperLeg); }
        }
    }
}

/// The joints form a tree rooted at the torso: no joint holds the torso as
/// its child, every part with a parent is the child of exactly one joint,
/// each joint goes from a part to one a level further from the torso, and a
/// joint's parent is the torso or the child of an earlier joint, so that
/// spawning the joints in order never refers to a part not yet tied in.
pub proof fn lemma_skeleton_is_a_tree()
    ensures
        skeleton().len() == 8,
        forall|i: int| 0 <= i < 8 ==> (#[trigger] skeleton()[i]).child != BodyPart::Torso,
        forall|i: int| 0 <= i < 8 ==> parent_of(#[trigger] skeleton()[i].child) == Some(skeleton()[i].parent),
        forall|i: int| 0 <= i < 8 ==> depth(skeleton()[i].parent) + 1 == depth(#[trigger] skeleton()[i].child),
        forall|p: BodyPart| #[trigger] parent_of(p) is Some ==> exists|i: int| 0 <= i < 8 && #[trigger] skeleton()[i].child == p,
        forall|i: int, k: int| 0 <= i < 8 && 0 <= k < 8 && #[trigger] skeleton()[i].child == #[trigger] skeleton()[k].child ==> i == k,
        forall|i: int| 0 <= i < 8 ==> (#[trigger] skeleton()[i].parent == BodyPart::Torso
            || exists|k: int| 0 <= k < i && #[trigger] skeleton()[k].child == skeleton()[i].parent),
{
    lemma_joints_step_outward();
    lemma_every_limb_has_a_joint();
    lemma_one_joint_per_limb();
    lemma_parents_come_first();
}

/// A joint is spherical exactly where a limb meets the torso, and revolute
/// where it meets another limb.
pub proof fn lemma_spherical_at_the_torso()
    ensures
        forall|i: int| 0 <= i < skeleton().len() ==> ((#[trigger] skeleton()[i]).kind == JointKind::Spherical
            <==> skeleton()[i].parent == BodyPart::Torso),
{
    let s = skeleton();
    assert forall|i: int| 0 <= i < s.len() implies ((#[trigger] s[i]).kind == JointKind::Spherical
        <==> s[i].parent == BodyPart::Torso) by {
        lemma_skeleton_entry(i);
    }
}

} // verus!

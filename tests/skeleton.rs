use ragdoll::skeleton::{joints, limb_parts, parent, BodyPart, Centimetres, Joint, JointKind, PartShape};

fn cm(x: i32, y: i32, z: i32) -> Centimetres {
    Centimetres { x, y, z }
}

#[test]
fn torso_shape_floats() {
    let s = BodyPart::Torso.shape();
    assert_eq!(s, PartShape { position: cm(0, 150, 0), radius: 20, height: 50, falls: false });
}

#[test]
fn limb_shapes() {
    assert_eq!(
        BodyPart::LeftShoulder.shape(),
        PartShape { position: cm(40, 170, 0), radius: 10, height: 30, falls: true }
    );
    assert_eq!(
        BodyPart::RightForearm.shape(),
        PartShape { position: cm(-40, 110, 0), radius: 10, height: 20, falls: true }
    );
    assert_eq!(
        BodyPart::RightLowerLeg.shape(),
        PartShape { position: cm(-20, -10, 0), radius: 13, height: 30, falls: true }
    );
    assert_eq!(
        BodyPart::LeftUpperLeg.shape(),
        PartShape { position: cm(20, 60, 0), radius: 13, height: 30, falls: true }
    );
}

#[test]
fn parents() {
    assert_eq!(parent(BodyPart::Torso), None);
    assert_eq!(parent(BodyPart::LeftShoulder), Some(BodyPart::Torso));
    assert_eq!(parent(BodyPart::RightForearm), Some(BodyPart::RightShoulder));
    assert_eq!(parent(BodyPart::LeftLowerLeg), Some(BodyPart::LeftUpperLeg));
}

#[test]
fn torso_has_no_joint() {
    assert_eq!(BodyPart::Torso.joint(), None);
}

#[test]
fn shoulder_joint_is_spherical() {
    let j = BodyPart::RightShoulder.joint().unwrap();
    assert_eq!(
        j,
        Joint {
            kind: JointKind::Spherical,
            parent: BodyPart::Torso,
            child: BodyPart::RightShoulder,
            parent_anchor: cm(-40, 50, 0),
            child_anchor: cm(0, 20, 0),
        }
    );
}

#[test]
fn knee_joint_is_revolute() {
    let j = BodyPart::LeftLowerLeg.joint().unwrap();
    assert_eq!(
        j,
        Joint {
            kind: JointKind::Revolute,
            parent: BodyPart::LeftUpperLeg,
            child: BodyPart::LeftLowerLeg,
            parent_anchor: cm(0, -35, 0),
            child_anchor: cm(0, 25, 0),
        }
    );
}

#[test]
fn limbs_in_order() {
    assert_eq!(
        limb_parts(),
        vec![
            BodyPart::LeftShoulder,
            BodyPart::LeftForearm,
            BodyPart::RightShoulder,
            BodyPart::RightForearm,
            BodyPart::LeftUpperLeg,
            BodyPart::LeftLowerLeg,
            BodyPart::RightUpperLeg,
            BodyPart::RightLowerLeg,
        ]
    );
}

#[test]
fn joints_form_a_tree() {
    let js = joints();
    let limbs = limb_parts();
    assert_eq!(js.len(), 8);
    for (i, j) in js.iter().enumerate() {
        assert_eq!(j.child, limbs[i]);
        assert_eq!(Some(j.parent), parent(j.child));
        assert_ne!(j.child, BodyPart::Torso);
        assert_eq!(j.kind == JointKind::Spherical, j.parent == BodyPart::Torso);
        assert!(j.parent == BodyPart::Torso || js[..i].iter().any(|k| k.child == j.parent));
    }
    assert_eq!(
        js[1],
        Joint {
            kind: JointKind::Revolute,
            parent: BodyPart::LeftShoulder,
            child: BodyPart::LeftForearm,
            parent_anchor: cm(0, -30, 0),
            child_anchor: cm(0, 25, 0),
        }
    );
    assert_eq!(js[4].parent_anchor, cm(25, -40, 0));
    assert_eq!(js[4].child_anchor, cm(0, 40, 0));
}

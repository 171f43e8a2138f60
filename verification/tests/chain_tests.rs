use knot::chain::{Chain, ChainError, Leg, PhantomJoint, MIN_JOINTS};
use knot::magnitude::Magnitude;
use knot::settings::{CostParams, JointSpec, Steps, PARAMETERS};

type Pose = [u64; 7];

fn pose_of(numbers: [f64; 7]) -> Pose {
    let mut pose = [0u64; 7];
    for k in 0..7 {
        pose[k] = numbers[k].to_bits();
    }
    pose
}

fn numbers_of(pose: Pose) -> [f64; 7] {
    let mut numbers = [0.0f64; 7];
    for k in 0..7 {
        numbers[k] = f64::from_bits(pose[k]);
    }
    numbers
}

fn sample_poses(n: usize) -> Vec<Pose> {
    (0..n)
        .map(|i| {
            let t = i as f64;
            pose_of([1.0, 0.0, -0.0, 0.0, t * 0.5, -t, 1.0 / (t + 3.0)])
        })
        .collect()
}

fn size(x: f64) -> Magnitude {
    Magnitude::from_bits(x.to_bits()).unwrap()
}

fn joint_spec() -> JointSpec {
    JointSpec { segment_length: size(2.2), min_bend: size(0.0), max_bend: size(0.75) }
}

fn cost_params() -> CostParams {
    CostParams { bending_weight: size(1.0), length_weight: size(2.0), boundary_weight: size(4.0) }
}

fn build(
    num_angles: u32,
    pre: PhantomJoint<Pose>,
    post: PhantomJoint<Pose>,
    joints: Vec<Pose>,
) -> Result<Chain<Pose>, ChainError> {
    Chain::new(
        joint_spec(),
        num_angles,
        pre,
        post,
        cost_params(),
        size(0.001),
        size(0.02),
        Steps::new_uniform(size(0.000001)),
        joints,
    )
}

fn build_closed(num_angles: u32, pre: Pose, post: Pose, joints: Vec<Pose>) -> Result<Chain<Pose>, ChainError> {
    Chain::closed(
        joint_spec(),
        num_angles,
        pre,
        post,
        cost_params(),
        size(0.001),
        size(0.02),
        Steps::new_uniform(size(0.000001)),
        joints,
    )
}

fn phantom(index: usize, leg: Leg) -> PhantomJoint<Pose> {
    PhantomJoint { symmetry: pose_of([0.0, 1.0, 0.0, 0.0, 0.0, 0.0, 0.0]), index, leg }
}

#[test]
fn chain_needs_three_joints() {
    assert_eq!(MIN_JOINTS, 3);
    for n in 0..3 {
        let made = build(16, phantom(0, Leg::Incoming), phantom(0, Leg::Outgoing), sample_poses(n));
        assert!(matches!(made, Err(ChainError::TooFewJoints)));
        let closed = build_closed(16, [0u64; 7], [1u64; 7], sample_poses(n));
        assert!(matches!(closed, Err(ChainError::TooFewJoints)));
    }
    let made = build(16, phantom(0, Leg::Incoming), phantom(2, Leg::Outgoing), sample_poses(3));
    assert!(made.is_ok());
    assert_eq!(made.unwrap().len(), 3);
}

#[test]
fn chain_refuses_detached_phantom_joints() {
    let made = build(16, phantom(5, Leg::Incoming), phantom(4, Leg::Outgoing), sample_poses(5));
    assert!(matches!(made, Err(ChainError::PrePhantomDetached)));
    let made = build(16, phantom(0, Leg::Incoming), phantom(5, Leg::Outgoing), sample_poses(5));
    assert!(matches!(made, Err(ChainError::PostPhantomDetached)));
    let made = build(16, phantom(9, Leg::Incoming), phantom(9, Leg::Outgoing), sample_poses(5));
    assert!(matches!(made, Err(ChainError::PrePhantomDetached)));
    let made = build(16, phantom(4, Leg::Incoming), phantom(4, Leg::Outgoing), sample_poses(5));
    assert!(made.is_ok());
}

#[test]
fn chain_reports_too_few_joints_before_detached_phantoms() {
    let made = build(16, phantom(7, Leg::Incoming), phantom(7, Leg::Outgoing), sample_poses(2));
    assert!(matches!(made, Err(ChainError::TooFewJoints)));
}

#[test]
fn chain_is_at_rest_when_built() {
    let poses = sample_poses(20);
    let chain = build_closed(24, [0u64; 7], [1u64; 7], poses.clone()).unwrap();
    assert_eq!(chain.len(), 20);
    assert_eq!(chain.joints(), &poses);
    assert_eq!(chain.initial(), &poses);
    for i in 0..20 {
        assert_eq!(chain.joint(i), chain.initial_joint(i));
    }
    assert_eq!(chain.num_angles(), 24);
}

#[test]
fn chain_closed_puts_the_phantom_joints_at_the_ends() {
    let chain = build_closed(16, [3u64; 7], [4u64; 7], sample_poses(20)).unwrap();
    let pre = chain.pre_phantom();
    let post = chain.post_phantom();
    assert_eq!(pre.index, 0);
    assert_eq!(pre.leg, Leg::Incoming);
    assert_eq!(pre.symmetry, [3u64; 7]);
    assert_eq!(post.index, 19);
    assert_eq!(post.leg, Leg::Outgoing);
    assert_eq!(post.symmetry, [4u64; 7]);
}

#[test]
fn chain_keeps_the_constants_it_was_built_with() {
    let steps = Steps {
        sizes: [size(1e-6), size(2e-6), size(3e-6), size(4e-6), size(5e-6), size(6e-6)],
    };
    let mut chain = Chain::new(
        joint_spec(),
        12,
        phantom(0, Leg::Incoming),
        phantom(3, Leg::Outgoing),
        cost_params(),
        size(0.125),
        size(0.5),
        steps,
        sample_poses(4),
    )
    .unwrap();
    chain.set_joint(1, [7u64; 7]);
    let copy = chain.clone();
    for held in [&chain, &copy] {
        assert_eq!(held.spec(), joint_spec());
        assert_eq!(held.spec().segment_length, size(2.2));
        assert_eq!(held.spec().max_bend, size(0.75));
        assert_eq!(held.cost_params(), cost_params());
        assert_eq!(held.cost_params().boundary_weight, size(4.0));
        assert_eq!(held.return_to_initial_weight(), size(0.125));
        assert_eq!(held.descent_rate(), size(0.5));
        assert_eq!(held.num_angles(), 12);
        assert_eq!(held.steps(), steps);
        let given = [1e-6f64, 2e-6, 3e-6, 4e-6, 5e-6, 6e-6];
        for parameter in 0..PARAMETERS {
            assert_eq!(held.steps().step(parameter), size(given[parameter]));
        }
    }
}

#[test]
fn uniform_steps_are_the_same_for_every_parameter() {
    assert_eq!(PARAMETERS, 6);
    let steps = Steps::new_uniform(size(0.000001));
    for parameter in 0..PARAMETERS {
        assert_eq!(steps.step(parameter), size(0.000001));
        assert_eq!(f64::from_bits(steps.step(parameter).to_bits()), 0.000001);
    }
    assert_eq!(steps.sizes, [size(0.000001); 6]);
}

#[test]
fn chain_keeps_given_phantom_joints() {
    let chain = build(8, phantom(1, Leg::Outgoing), phantom(2, Leg::Incoming), sample_poses(4)).unwrap();
    assert_eq!(chain.pre_phantom().index, 1);
    assert_eq!(chain.pre_phantom().leg, Leg::Outgoing);
    assert_eq!(chain.post_phantom().index, 2);
    assert_eq!(chain.post_phantom().leg, Leg::Incoming);
    assert_eq!(chain.num_angles(), 8);
}

#[test]
fn chain_set_joint_moves_one_joint_and_keeps_the_snapshot() {
    let poses = sample_poses(6);
    let mut chain = build_closed(16, [0u64; 7], [1u64; 7], poses.clone()).unwrap();
    let moved = pose_of([0.5, 0.5, 0.5, 0.5, 9.0, 8.0, 7.0]);
    chain.set_joint(4, moved);
    for i in 0..6 {
        if i == 4 {
            assert_eq!(chain.joint(i), moved);
        } else {
            assert_eq!(chain.joint(i), poses[i]);
        }
        assert_eq!(chain.initial_joint(i), poses[i]);
    }
    assert_eq!(chain.len(), 6);
    assert_eq!(chain.pre_phantom().index, 0);
    assert_eq!(chain.post_phantom().index, 5);
}

#[test]
fn chain_clone_is_an_independent_copy() {
    let poses = sample_poses(5);
    let chain = build_closed(16, [0u64; 7], [1u64; 7], poses.clone()).unwrap();
    let mut copy = chain.clone();
    assert_eq!(copy.joints(), chain.joints());
    assert_eq!(copy.initial(), chain.initial());
    assert_eq!(copy.num_angles(), chain.num_angles());
    assert_eq!(copy.post_phantom().index, chain.post_phantom().index);
    copy.set_joint(0, [9u64; 7]);
    assert_eq!(chain.joint(0), poses[0]);
    assert_eq!(copy.joint(0), [9u64; 7]);
    assert_eq!(copy.initial_joint(0), poses[0]);
}

#[test]
fn chain_carries_poses_bit_for_bit() {
    let numbers: Vec<[f64; 7]> = vec![
        [1.0, 0.0, 0.0, 0.0, 0.1, 0.2, 0.3],
        [0.7071067811865476, 0.0, 0.7071067811865475, -0.0, -1.5e-7, 2.5e9, -3.0],
        [0.5, -0.5, 0.5, -0.5, f64::MIN_POSITIVE, f64::MAX, 1.0 / 3.0],
    ];
    let poses: Vec<Pose> = numbers.iter().map(|n| pose_of(*n)).collect();
    let chain = build_closed(16, [0u64; 7], [1u64; 7], poses).unwrap();
    for i in 0..3 {
        let back = numbers_of(chain.joint(i));
        for k in 0..7 {
            assert_eq!(back[k].to_bits(), numbers[i][k].to_bits());
        }
    }
}

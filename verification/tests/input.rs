use raycast_shooter::controller::{handle_operation, Measured};
use raycast_shooter::input::{get_unique_input, Operation};
use raycast_shooter::model::{Entity, Player, PlayerInfo, ShootingStatus};

fn kinds(operations: &[Operation<u8>]) -> Vec<&'static str> {
    operations
        .iter()
        .map(|operation| match operation {
            Operation::Left(_) => "left",
            Operation::Right(_) => "right",
            Operation::Forward => "forward",
            Operation::Back => "back",
            Operation::StrafeLeft => "strafe left",
            Operation::StrafeRight => "strafe right",
            Operation::Shoot => "shoot",
        })
        .collect()
}

#[test]
fn test_get_unique_input() {
    let unique = get_unique_input(vec![
        Operation::Forward,
        Operation::Left(3),
        Operation::Shoot,
        Operation::Forward,
        Operation::Left(9),
        Operation::Right(9),
        Operation::Shoot,
        Operation::Shoot,
        Operation::Back,
    ]);
    assert_eq!(kinds(&unique), vec!["forward", "left", "shoot", "right", "back"]);
    // of two turns to the same side the first stays, with its rate
    assert!(matches!(unique[1], Operation::Left(3)));
    assert!(matches!(unique[3], Operation::Right(9)));

    assert!(get_unique_input::<u8>(vec![]).is_empty());
    assert_eq!(kinds(&get_unique_input(vec![Operation::StrafeLeft])), vec!["strafe left"]);
    let all = vec![
        Operation::Left(1),
        Operation::Right(1),
        Operation::Forward,
        Operation::Back,
        Operation::StrafeLeft,
        Operation::StrafeRight,
        Operation::Shoot,
    ];
    assert_eq!(get_unique_input(all.clone()).len(), 7);
    let twice: Vec<Operation<u8>> = all.iter().chain(all.iter()).copied().collect();
    assert_eq!(kinds(&get_unique_input(twice)), kinds(&all));
}

#[test]
fn test_same_kind() {
    assert!(Operation::Left(1u8).same_kind(&Operation::Left(2)));
    assert!(!Operation::Left(1u8).same_kind(&Operation::Right(1)));
    assert!(Operation::<u8>::Shoot.same_kind(&Operation::Shoot));
    assert!(!Operation::<u8>::Forward.same_kind(&Operation::Back));
    assert!(!Operation::<u8>::StrafeLeft.same_kind(&Operation::StrafeRight));
}

#[test]
fn test_handle_operation() {
    let player = Player { entity: Entity { position: (0, 0), size: 2u8 }, look: (1, 0) };
    let info = PlayerInfo::default();
    let measured = |hits: Vec<bool>| Measured { look: (0, 1), new_pos: (5, 5), hits };

    // a turn changes the look and nothing else
    let (turned, after) = handle_operation(player, info, &Operation::Left(7u8), &measured(vec![true]));
    assert_eq!(turned.look, (0, 1));
    assert_eq!(turned.entity.position, (0, 0));
    assert_eq!(after.shooting_status, ShootingStatus::NotShooting);
    let (turned, _) = handle_operation(player, info, &Operation::Right(7u8), &measured(vec![]));
    assert_eq!(turned.look, (0, 1));

    // a step is taken if nothing is in the way, and not at all otherwise
    for step in [Operation::Forward, Operation::Back, Operation::StrafeLeft, Operation::StrafeRight] {
        let step: Operation<u8> = step;
        let (moved, after) = handle_operation(player, info, &step, &measured(vec![false, false]));
        assert_eq!(moved.entity.position, (5, 5));
        assert_eq!(moved.entity.size, 2);
        assert_eq!(moved.look, (1, 0));
        assert_eq!(after.shooting_status, ShootingStatus::NotShooting);
        let (stuck, _) = handle_operation(player, info, &step, &measured(vec![false, true]));
        assert_eq!(stuck.entity.position, (0, 0));
        assert_eq!(stuck.look, (1, 0));
    }

    // the wish to shoot pulls the trigger, unless the weapon is reloading
    let (same, after) = handle_operation(player, info, &Operation::<u8>::Shoot, &measured(vec![]));
    assert_eq!(same.entity.position, (0, 0));
    assert_eq!(same.look, (1, 0));
    assert_eq!(after.shooting_status, ShootingStatus::Shooting);
    assert_eq!(after.bullets, info.bullets);
    let reloading = PlayerInfo { shooting_status: ShootingStatus::Reloading, ..info };
    let (_, after) = handle_operation(player, reloading, &Operation::<u8>::Shoot, &measured(vec![]));
    assert_eq!(after.shooting_status, ShootingStatus::Reloading);
}

//! Tests of the entity components: animation state, sprite sheets and
//! movement strategies.

use physics_core::{
    AnimatorComponent, CircularMovement, HorizontalRandomMovement, LinearMovement,
    SinusoidalMovement, SpriteSheetComponent,
};
use physics_core::scalar::Scalar;
use physics_core::sprite::FrameCell;

fn scalar(value: f32) -> Scalar {
    Scalar::from_bits(value.to_bits())
}

fn value(scalar: Scalar) -> f32 {
    f32::from_bits(scalar.to_bits())
}

#[test]
fn test_animator_component_default() {
    let animator = AnimatorComponent::default();
    assert!(animator.is_playing);
    assert!((value(animator.elapsed_time) - 0.0).abs() < 0.001);
    assert!((value(animator.speed) - 1.0).abs() < 0.001);
    assert_eq!(animator.current_frame, 0);
}

#[test]
fn test_strategy_names() {
    let linear = LinearMovement {
        velocity_x: scalar(1.0),
        velocity_y: scalar(1.0),
    };
    assert_eq!(linear.name(), "Linear");

    let sinusoidal = SinusoidalMovement {
        amplitude: scalar(1.0),
        frequency: scalar(1.0),
        direction_x: scalar(1.0),
    };
    assert_eq!(sinusoidal.name(), "Sinusoidal");

    let circular = CircularMovement {
        radius: scalar(1.0),
        angular_speed: scalar(1.0),
    };
    assert_eq!(circular.name(), "Circular");
}

#[test]
fn test_horizontal_random_movement_name() {
    let strategy = HorizontalRandomMovement {
        speed: scalar(1.0),
        move_duration: scalar(2.0),
        pause_duration: scalar(1.0),
        seed: 42,
    };
    assert_eq!(strategy.name(), "HorizontalRandom");
}

#[test]
fn test_sprite_sheet_default() {
    let sheet = SpriteSheetComponent::default();
    assert_eq!(sheet.columns, 1);
    assert_eq!(sheet.rows, 1);
    assert_eq!(sheet.frame_count, 1);
    assert!((value(sheet.frame_duration) - 0.1).abs() < 0.001);
    assert!(sheet.looping);
}

#[test]
fn horizontal_random_direction_is_a_unit() {
    let strategy = HorizontalRandomMovement {
        speed: scalar(1.0),
        move_duration: scalar(2.0),
        pause_duration: scalar(1.0),
        seed: 42,
    };
    for segment in 0..64u32 {
        let direction = value(strategy.direction_for_segment(segment));
        assert!(direction == 1.0 || direction == -1.0);
    }
}

#[test]
fn horizontal_random_direction_matches_hash() {
    for seed in [0u32, 1, 42, 0xFFFF_FFFF, 0x8000_0001] {
        let strategy = HorizontalRandomMovement {
            speed: scalar(1.0),
            move_duration: scalar(2.0),
            pause_duration: scalar(1.0),
            seed,
        };
        for segment in [0u32, 1, 2, 3, 1000, 0xFFFF_FFFE, 0xFFFF_FFFF] {
            let hash = seed
                .wrapping_mul(2654435761)
                .wrapping_add(segment.wrapping_mul(1597334677));
            let expected = if hash % 2 == 0 { 1.0f32 } else { -1.0f32 };
            assert_eq!(value(strategy.direction_for_segment(segment)), expected);
        }
    }
}

#[test]
fn horizontal_random_direction_alternates() {
    let strategy = HorizontalRandomMovement {
        speed: scalar(1.0),
        move_duration: scalar(2.0),
        pause_duration: scalar(1.0),
        seed: 42,
    };
    assert_eq!(value(strategy.direction_for_segment(0)), 1.0);
    assert_eq!(value(strategy.direction_for_segment(1)), -1.0);
    assert_eq!(value(strategy.direction_for_segment(2)), 1.0);
    for segment in 0..100u32 {
        let here = strategy.direction_for_segment(segment);
        let next = strategy.direction_for_segment(segment + 1);
        assert_eq!(next, here.negated());
    }
}

#[test]
fn horizontal_random_direction_is_deterministic() {
    let first = HorizontalRandomMovement {
        speed: scalar(1.0),
        move_duration: scalar(2.0),
        pause_duration: scalar(1.0),
        seed: 42,
    };
    let second = HorizontalRandomMovement {
        speed: scalar(3.0),
        move_duration: scalar(5.0),
        pause_duration: scalar(0.5),
        seed: 42,
    };
    for segment in 0..32u32 {
        assert_eq!(
            first.direction_for_segment(segment),
            second.direction_for_segment(segment)
        );
    }
}

#[test]
fn sprite_sheet_cell_single_frame() {
    let sheet = SpriteSheetComponent::new(1, 1, 1, scalar(0.1), true);
    assert_eq!(sheet.cell_for_frame(0), Some(FrameCell { col: 0, row: 0 }));
    assert_eq!(sheet.cell_for_frame(7), Some(FrameCell { col: 0, row: 0 }));
}

#[test]
fn sprite_sheet_cell_4x4_grid() {
    let sheet = SpriteSheetComponent::new(4, 4, 16, scalar(0.1), true);
    assert_eq!(sheet.cell_for_frame(0), Some(FrameCell { col: 0, row: 0 }));
    assert_eq!(sheet.cell_for_frame(1), Some(FrameCell { col: 1, row: 0 }));
    assert_eq!(sheet.cell_for_frame(4), Some(FrameCell { col: 0, row: 1 }));
    assert_eq!(sheet.cell_for_frame(15), Some(FrameCell { col: 3, row: 3 }));
    // Past the end, the last frame is held.
    assert_eq!(sheet.cell_for_frame(16), Some(FrameCell { col: 3, row: 3 }));
    assert_eq!(sheet.cell_for_frame(u32::MAX), Some(FrameCell { col: 3, row: 3 }));
}

#[test]
fn sprite_sheet_cell_without_columns_or_frames() {
    let no_columns = SpriteSheetComponent::new(0, 4, 16, scalar(0.1), true);
    assert_eq!(no_columns.cell_for_frame(3), None);
    let no_frames = SpriteSheetComponent::new(4, 4, 0, scalar(0.1), true);
    assert_eq!(no_frames.cell_for_frame(3), Some(FrameCell { col: 0, row: 0 }));
}

#[test]
fn sprite_sheet_frame_for_index_looping() {
    let sheet = SpriteSheetComponent::new(4, 1, 4, scalar(0.5), true);
    assert_eq!(sheet.frame_for_index(0), 0);
    assert_eq!(sheet.frame_for_index(1), 1);
    assert_eq!(sheet.frame_for_index(3), 3);
    assert_eq!(sheet.frame_for_index(4), 0);
    assert_eq!(sheet.frame_for_index(6), 2);
}

#[test]
fn sprite_sheet_frame_for_index_not_looping() {
    let sheet = SpriteSheetComponent::new(4, 1, 4, scalar(0.5), false);
    assert_eq!(sheet.frame_for_index(0), 0);
    assert_eq!(sheet.frame_for_index(3), 3);
    assert_eq!(sheet.frame_for_index(20), 3);
}

#[test]
fn sprite_sheet_frame_for_index_empty_sheet() {
    let looping = SpriteSheetComponent::new(4, 1, 0, scalar(0.5), true);
    assert_eq!(looping.frame_for_index(9), 0);
    let stopping = SpriteSheetComponent::new(4, 1, 0, scalar(0.5), false);
    assert_eq!(stopping.frame_for_index(9), 0);
}

use northlands::animation::{animate_sprite_two_frame, AnimationIndices};

#[test]
fn sprite_flips_when_the_timer_runs_out() {
    let indices = AnimationIndices { first: 4, last: 5 };
    assert_eq!(animate_sprite_two_frame(&indices, true, 5), Some(4));
    assert_eq!(animate_sprite_two_frame(&indices, true, 4), Some(5));
}

#[test]
fn sprite_is_left_alone_while_the_timer_runs() {
    let indices = AnimationIndices { first: 4, last: 5 };
    assert_eq!(animate_sprite_two_frame(&indices, false, 4), None);
    assert_eq!(animate_sprite_two_frame(&indices, false, 5), None);
    assert_eq!(animate_sprite_two_frame(&indices, false, 99), None);
}

#[test]
fn sprite_off_the_frames_goes_to_the_last() {
    let indices = AnimationIndices { first: 4, last: 5 };
    assert_eq!(animate_sprite_two_frame(&indices, true, 0), Some(5));
    assert_eq!(animate_sprite_two_frame(&indices, true, usize::MAX), Some(5));
}

#[test]
fn two_flips_come_back() {
    let indices = AnimationIndices { first: 17, last: 3 };
    for start in [17usize, 3] {
        let once = animate_sprite_two_frame(&indices, true, start).unwrap();
        assert_ne!(once, start);
        let twice = animate_sprite_two_frame(&indices, true, once).unwrap();
        assert_eq!(twice, start);
    }
}

#[test]
fn single_frame_stays() {
    let indices = AnimationIndices { first: 8, last: 8 };
    assert_eq!(animate_sprite_two_frame(&indices, true, 8), Some(8));
    assert_eq!(animate_sprite_two_frame(&indices, true, 2), Some(8));
}

use donut::compositor::FrameComposer;
use donut::driver::{advance_views, frame_text, render_frame, Renderer};
use donut::fixed::{floor_div, toward_zero_div};
use donut::rotator::{rotate, RotationState};
use donut::sample::{glyph_for, sample_point, SamplePixel};

const RAMP: [char; 12] = [' ', ',', '-', '~', ':', ';', '=', '!', '*', '#', '$', '@'];

fn unit() -> RotationState {
    RotationState::unit()
}

#[test]
fn floor_div_rounds_toward_negative_infinity() {
    assert_eq!(floor_div(7, 2), 3);
    assert_eq!(floor_div(-7, 2), -4);
    assert_eq!(floor_div(-1, 1024), -1);
    assert_eq!(floor_div(1023, 1024), 0);
    assert_eq!(floor_div(-1024, 1024), -1);
}

#[test]
fn toward_zero_div_truncates() {
    assert_eq!(toward_zero_div(7, 2), 3);
    assert_eq!(toward_zero_div(-7, 2), -3);
    assert_eq!(toward_zero_div(-1, 1024), 0);
}

#[test]
fn rotate_single_steps_are_exact() {
    let mut x: i32 = 1024;
    let mut y: i32 = 0;
    rotate(9, 7, &mut x, &mut y);
    assert_eq!((x, y), (1021, 71));
    rotate(9, 7, &mut x, &mut y);
    assert_eq!((x, y), (1014, 141));

    let mut x: i32 = 1024;
    let mut y: i32 = 0;
    rotate(5, 8, &mut x, &mut y);
    assert_eq!((x, y), (1023, 19));

    let mut x: i32 = 1024;
    let mut y: i32 = 0;
    rotate(5, 7, &mut x, &mut y);
    assert_eq!((x, y), (1023, 39));
}

#[test]
fn rotate_magnitude_stays_in_window_for_ten_thousand_steps() {
    for &(m, s) in &[(9, 7), (5, 8), (5, 7)] {
        let mut x: i32 = 1024;
        let mut y: i32 = 0;
        for _ in 0..10000 {
            rotate(m, s, &mut x, &mut y);
            let sq = (x as i64) * (x as i64) + (y as i64) * (y as i64);
            assert!(1040576 <= sq && sq <= 1056576, "drift at ({m},{s}): {sq}");
        }
    }
}

#[test]
fn rotate_long_runs_match_recorded_values() {
    let mut x: i32 = 1024;
    let mut y: i32 = 0;
    for _ in 0..10000 {
        rotate(9, 7, &mut x, &mut y);
    }
    assert_eq!((x, y), (-637, -802));

    let mut x: i32 = 1024;
    let mut y: i32 = 0;
    for _ in 0..10000 {
        rotate(5, 8, &mut x, &mut y);
    }
    assert_eq!((x, y), (693, -753));

    let mut x: i32 = 1024;
    let mut y: i32 = 0;
    for _ in 0..10000 {
        rotate(5, 7, &mut x, &mut y);
    }
    assert_eq!((x, y), (470, -909));
}

#[test]
fn advance_matches_free_rotate() {
    let mut st = unit();
    st.advance(9, 7);
    assert_eq!((st.x, st.y), (1021, 71));
}

#[test]
fn glyph_ramp_is_ordered_and_clamps() {
    for (i, &c) in RAMP.iter().enumerate() {
        assert_eq!(glyph_for(i as i64), c);
    }
    assert_eq!(glyph_for(-1), ' ');
    assert_eq!(glyph_for(-40), ' ');
    assert_eq!(glyph_for(12), ' ');
    assert_eq!(glyph_for(100), ' ');
}

#[test]
fn sample_point_on_initial_states() {
    let u = unit();
    let px = sample_point(&u, &u, &u, &u);
    assert_eq!(px.x, 58);
    assert_eq!(px.y, 12);
    assert_eq!(px.depth, 0);
    assert_eq!(px.glyph, ' ');
}

#[test]
fn compositor_accepts_only_window_pixels() {
    let mut fc = FrameComposer::new();
    for &(x, y) in &[(0, 5), (80, 5), (5, 0), (5, 22), (-3, 5), (5, -1), (100, 100)] {
        let px = SamplePixel { x, y, depth: -100, glyph: '@' };
        fc.composite(&px);
    }
    let grid = fc.into_grid();
    assert_eq!(grid.len(), 1760);
    assert!(grid.iter().all(|&c| c == ' '));
}

#[test]
fn compositor_nearest_wins() {
    let mut fc = FrameComposer::new();
    let o = 5 + 7 * 80;
    fc.composite(&SamplePixel { x: 5, y: 7, depth: 5, glyph: '#' });
    assert_eq!(fc.glyph_at(o), '#');
    assert_eq!(fc.depth_at(o), 5);
    // nearer sample overwrites
    fc.composite(&SamplePixel { x: 5, y: 7, depth: 3, glyph: '*' });
    assert_eq!(fc.glyph_at(o), '*');
    assert_eq!(fc.depth_at(o), 3);
    // farther sample loses: the stored depth stays below the loser's depth
    fc.composite(&SamplePixel { x: 5, y: 7, depth: 4, glyph: '!' });
    assert_eq!(fc.glyph_at(o), '*');
    assert_eq!(fc.depth_at(o), 3);
}

#[test]
fn compositor_tie_break_keeps_first_writer() {
    let mut fc = FrameComposer::new();
    let o = 41 + 11 * 80;
    fc.composite(&SamplePixel { x: 41, y: 11, depth: -7, glyph: '$' });
    fc.composite(&SamplePixel { x: 41, y: 11, depth: -7, glyph: ',' });
    assert_eq!(fc.glyph_at(o), '$');
    assert_eq!(fc.depth_at(o), -7);
}

#[test]
fn render_frame_is_deterministic() {
    let a = unit();
    let b = unit();
    let f1 = render_frame(&a, &b);
    let f2 = render_frame(&a, &b);
    assert_eq!(f1, f2);

    let mut a2 = unit();
    let mut b2 = unit();
    advance_views(&mut a2, &mut b2);
    let g1 = render_frame(&a2, &b2);
    let g2 = render_frame(&a2, &b2);
    assert_eq!(g1, g2);
    assert_ne!(f1, g1);
}

#[test]
fn render_frame_depths_bound_every_competing_sample() {
    // replays the golden frame's samples against the compositor by hand and
    // checks that no sample that targeted a cell ends up nearer than what the
    // frame stored there.
    let a = unit();
    let b = unit();
    let mut fc = FrameComposer::new();
    let mut samples: Vec<(usize, i8)> = Vec::new();
    let mut ring = unit();
    for _ in 0..90 {
        let mut tube = unit();
        for _ in 0..324 {
            let px = sample_point(&tube, &ring, &a, &b);
            if 0 < px.x && px.x < 80 && 0 < px.y && px.y < 22 {
                samples.push(((px.x + px.y * 80) as usize, px.depth));
            }
            fc.composite(&px);
            tube.advance(5, 8);
        }
        ring.advance(9, 7);
    }
    for &(o, d) in &samples {
        assert!(fc.depth_at(o) <= d);
    }
}

#[test]
fn golden_first_frame() {
    let frame = render_frame(&unit(), &unit());
    assert_eq!(frame.len(), 1760);
    let expected: [&str; 22] = [
        "                                                                                ",
        "                                                                                ",
        "                                                                                ",
        "                                                                                ",
        "                                                                                ",
        "                                                                                ",
        "                                                                                ",
        "                               $$$$$$@@@@@@@$$$$$                               ",
        "                        $$$$$$@@@@@@@@@@@@@@@@@@@@@$$$$$$                       ",
        "                     ##$$$$$$$$$$$$$$$$$$$$$$$$$$$$$$$$$$$##                    ",
        "                   **#######$##$##$$$$$$$$$$$$$##$##########**                  ",
        "                  !!!***#****########################**#****!!=                 ",
        "                  ;===!!!!!!!!!!!!!!!!!!!!!!!!!!!!!!!!!!!!!===;                 ",
        "                  ~::;;;;;;;;;;==================;;;;;;;;;;;::~                 ",
        "                   ---~~::::::::::::;;;;;;;;;::::::::::::~~--,                  ",
        "                       ,,,---~~~~~~~~~~~~~~~~~~~~~~~---,,,                      ",
        "                                    ,,,,,,,,,                                   ",
        "                                                                                ",
        "                                                                                ",
        "                                                                                ",
        "                                                                                ",
        "                                                                                ",
    ];
    for (r, want) in expected.iter().enumerate() {
        let row: String = frame[r * 80..(r + 1) * 80].iter().collect();
        assert_eq!(&row, want, "row {r} differs");
    }
}

#[test]
fn renderer_advances_views_each_frame() {
    let mut rd = Renderer::new();
    assert_eq!((rd.view_a.x, rd.view_a.y), (1024, 0));
    assert_eq!((rd.view_b.x, rd.view_b.y), (1024, 0));
    let first = rd.next_frame();
    assert_eq!((rd.view_a.x, rd.view_a.y), (1023, 39));
    assert_eq!((rd.view_b.x, rd.view_b.y), (1023, 19));
    // the first frame comes from the states before the advance
    assert_eq!(first, render_frame(&unit(), &unit()));
    let second = rd.next_frame();
    assert_ne!(first, second);
}

#[test]
fn frame_text_lays_rows_out_with_newlines() {
    let frame = render_frame(&unit(), &unit());
    let text = frame_text(&frame);
    assert_eq!(text.len(), 1781);
    for r in 0..21 {
        assert_eq!(text[r * 81 + 80], '\n');
    }
    for r in 0..22 {
        for c in 0..80 {
            assert_eq!(text[r * 81 + c], frame[r * 80 + c]);
        }
    }
}

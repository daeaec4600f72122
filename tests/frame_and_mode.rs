use pixel_canvas::{Color, Image, XY};
use polar_tunnel::frame::{grey, render_frame, Frame, SPEED, SPIN};
use polar_tunnel::mode::{parse_args, ArgsError, Which};
use polar_tunnel::report::{mouse_report, mousenorm, sample_map, FrameState, MouseReport};
use polar_tunnel::texture::render_texture;

fn pixels(img: &Image) -> Vec<(u8, u8, u8)> {
    img.iter().map(|c| (c.r, c.g, c.b)).collect()
}

fn filled(width: usize, height: usize, c: (u8, u8, u8)) -> Image {
    let mut img = Image::new(width, height);
    img.fill(Color::rgb(c.0, c.1, c.2));
    img
}

fn args(v: &[&str]) -> Vec<String> {
    v.iter().map(|s| s.to_string()).collect()
}

#[test]
fn parse_names_each_mode() {
    for (tokens, want) in [
        (["e", "eff", "effect"], Which::Effect),
        (["t", "tex", "texture"], Which::Texture),
        (["d", "dist", "distance"], Which::Distance),
        (["a", "ang", "angle"], Which::Angle),
    ] {
        for t in tokens {
            assert_eq!(Which::from_str(t).unwrap(), want);
        }
    }
}

#[test]
fn parse_tex_selects_texture_and_bogus_fails() {
    assert_eq!(parse_args(&args(&["tex"])).unwrap(), Which::Texture);
    match parse_args(&args(&["bogus"])) {
        Err(ArgsError::NotRecognised(s)) => assert_eq!(s, "bogus"),
        other => panic!("unexpected {:?}", other),
    }
}

#[test]
fn parse_defaults_and_too_many() {
    assert_eq!(parse_args(&args(&[])).unwrap(), Which::Effect);
    assert_eq!(Which::default(), Which::Effect);
    assert!(matches!(parse_args(&args(&["t", "d"])), Err(ArgsError::TooMany)));
    assert!(matches!(Which::from_str(""), Err(ArgsError::NotRecognised(_))));
    assert!(matches!(Which::from_str("Tex"), Err(ArgsError::NotRecognised(_))));
}

#[test]
fn grey_scales_into_byte_range() {
    assert_eq!(grey(0, 10), (0, 0, 0));
    assert_eq!(grey(10, 10), (255, 255, 255));
    assert_eq!(grey(3, 4), (191, 191, 191));
    assert_eq!(grey(1023, 1024), (254, 254, 254));
}

#[test]
fn texture_mode_copies_texture_into_corner() {
    let tex = render_texture(4, 3);
    let mut out = filled(6, 5, (9, 9, 9));
    let f = Frame { elapsed: 7, shift_x: 0, shift_y: 0 };
    render_frame(&mut out, Which::Texture, &tex, &vec![], &vec![], 0, f);
    for y in 0..5 {
        for x in 0..6 {
            let c = out[XY(x, y)];
            if x < 4 && y < 3 {
                let t = tex[XY(x, y)];
                assert_eq!((c.r, c.g, c.b), (t.r, t.g, t.b));
            } else {
                assert_eq!((c.r, c.g, c.b), (9, 9, 9));
            }
        }
    }
}

#[test]
fn texture_mode_clips_to_the_output() {
    let tex = render_texture(8, 8);
    let mut out = filled(3, 2, (1, 2, 3));
    render_frame(&mut out, Which::Texture, &tex, &vec![], &vec![], 0, Frame { elapsed: 0, shift_x: 0, shift_y: 0 });
    for y in 0..2 {
        for x in 0..3 {
            let (c, t) = (out[XY(x, y)], tex[XY(x, y)]);
            assert_eq!((c.r, c.g, c.b), (t.r, t.g, t.b));
        }
    }
}

fn maps(mw: usize, mh: usize) -> (Vec<usize>, Vec<usize>) {
    let dist: Vec<usize> = (0..mw * mh).map(|i| (i * 7) % 13).collect();
    let ang: Vec<usize> = (0..mw * mh).map(|i| (i * 5) % 11).collect();
    (dist, ang)
}

#[test]
fn effect_mode_samples_scrolled_maps() {
    let (tw, th) = (8usize, 8usize);
    let tex = render_texture(tw, th);
    let (w, h, mw, mh) = (4usize, 3usize, 8usize, 6usize);
    let (dist, ang) = maps(mw, mh);
    let f = Frame { elapsed: 5, shift_x: 2, shift_y: 1 };
    let mut out = Image::new(w, h);
    render_frame(&mut out, Which::Effect, &tex, &dist, &ang, mw, f);
    for y in 0..h {
        for x in 0..w {
            let o = (y + 1) * mw + (x + 2);
            let a = (ang[o] + SPIN * 5) % tw;
            let d = (dist[o] + SPEED * 5) % th;
            let t = tex[XY(a, d)];
            let c = out[XY(x, y)];
            assert_eq!((c.r, c.g, c.b), (t.r, t.g, t.b));
        }
    }
}

#[test]
fn grey_modes_show_scrolled_values() {
    let (tw, th) = (8usize, 16usize);
    let tex = render_texture(tw, th);
    let (w, h, mw, mh) = (4usize, 3usize, 8usize, 6usize);
    let (dist, ang) = maps(mw, mh);
    let f = Frame { elapsed: 3, shift_x: 1, shift_y: 2 };
    let mut dout = Image::new(w, h);
    let mut aout = Image::new(w, h);
    render_frame(&mut dout, Which::Distance, &tex, &dist, &ang, mw, f);
    render_frame(&mut aout, Which::Angle, &tex, &dist, &ang, mw, f);
    for y in 0..h {
        for x in 0..w {
            let o = (y + 2) * mw + (x + 1);
            let d = (dist[o] + SPEED * 3) % th;
            let a = (ang[o] + SPIN * 3) % tw;
            let dg = (255 * d / th) as u8;
            let ag = (255 * a / tw) as u8;
            let (dc, ac) = (dout[XY(x, y)], aout[XY(x, y)]);
            assert_eq!((dc.r, dc.g, dc.b), (dg, dg, dg));
            assert_eq!((ac.r, ac.g, ac.b), (ag, ag, ag));
        }
    }
}

#[test]
fn same_ticks_give_identical_frames() {
    let tex = render_texture(8, 8);
    let (dist, ang) = maps(8, 6);
    let f = Frame { elapsed: 1234, shift_x: 3, shift_y: 2 };
    let mut first = filled(4, 3, (0, 0, 0));
    let mut second = filled(4, 3, (200, 100, 50));
    render_frame(&mut first, Which::Effect, &tex, &dist, &ang, 8, f);
    render_frame(&mut second, Which::Effect, &tex, &dist, &ang, 8, f);
    assert_eq!(pixels(&first), pixels(&second));
}

#[test]
fn huge_elapsed_does_not_overflow() {
    let tex = render_texture(8, 8);
    let (dist, ang) = maps(8, 6);
    let f = Frame { elapsed: usize::MAX, shift_x: 0, shift_y: 0 };
    let mut out = Image::new(4, 3);
    render_frame(&mut out, Which::Effect, &tex, &dist, &ang, 8, f);
    let a = ((ang[0] as u128 + 3 * usize::MAX as u128) % 8) as usize;
    let d = ((dist[0] as u128 + 10 * usize::MAX as u128) % 8) as usize;
    let (c, t) = (out[XY(0, 0)], tex[XY(a, d)]);
    assert_eq!((c.r, c.g, c.b), (t.r, t.g, t.b));
}

#[test]
fn sample_map_reports_min_max_and_corner() {
    let map: Vec<usize> = vec![5, 3, 9, 4, 8, 1, 7, 2, 6, 0, 11, 10];
    let s = sample_map(&map, 2, 4, 3);
    assert_eq!(s.min, 0);
    assert_eq!(s.max, 11);
    assert_eq!(s.corner, vec![vec![5, 3], vec![8, 1]]);
    let all = sample_map(&map, 10, 4, 3);
    assert_eq!(all.corner.len(), 3);
    assert_eq!(all.corner[2], vec![6, 0, 11, 10]);
}

#[test]
fn sample_map_of_nothing() {
    let s = sample_map(&vec![], 10, 0, 0);
    assert_eq!(s.min, usize::MAX);
    assert_eq!(s.max, 0);
    assert!(s.corner.is_empty());
}

#[test]
fn mousenorm_halves_and_clamps() {
    assert_eq!(mousenorm(10, -4, 100), (5, 48));
    assert_eq!(mousenorm(-7, -300, 100), (0, 0));
    assert_eq!(mousenorm(1, 1, 0), (0, 0));
}

#[test]
fn mouse_report_reads_the_maps() {
    let tex = render_texture(4, 4);
    let dist: Vec<usize> = (0..20).collect();
    let ang: Vec<usize> = (100..120).collect();
    let r = mouse_report((6, 2), 5, &tex, &dist, &ang).unwrap();
    let t = tex[XY(2, 2)];
    assert_eq!(r, MouseReport { texel: (t.r, t.g, t.b), angle: 116, distance: 16 });
    assert_eq!(mouse_report((0, 4), 5, &tex, &dist, &ang), None);
    assert_eq!(mouse_report((0, 0), 5, &Image::new(0, 0), &dist, &ang), None);
}

#[test]
fn frame_state_reports_moves_once() {
    let mut s = FrameState::new();
    assert!(!s.observe_mouse((0, 0)));
    assert!(s.observe_mouse((3, 4)));
    assert!(!s.observe_mouse((3, 4)));
    assert_eq!(s.last_mouse, (3, 4));
}

use skia_safe::canvas::Canvas;
use skia_safe::engine::Engine;
use skia_safe::handles::Borrows;
use skia_safe::handles::Handle;
use skia_safe::handles::RCHandle;
use skia_safe::native::NativeTypeface;
use skia_safe::null_canvas::new_null_canvas;
use skia_safe::paint::Paint;
use skia_safe::point::Point;
use skia_safe::rect::Rect;
use skia_safe::size::ISize;
use skia_safe::typeface::Typeface;

#[test]
fn null_factory_result_is_absent() {
    let e: Engine<NativeTypeface> = Engine::new();
    let r = RCHandle::from_ptr(0, &e);
    assert!(r.is_none());
}

#[test]
fn clone_and_drop_leave_object_alive() {
    let mut e: Engine<NativeTypeface> = Engine::new();
    let tf = Typeface::new_default(&mut e);
    assert!(e.is_alive(tf.ptr));
    let clone = tf.clone_handle(&mut e);
    clone.drop_handle(&mut e);
    assert!(e.is_alive(tf.ptr));
    assert_eq!(e.get(tf.ptr).unique_id, 0);
    let p = tf.ptr;
    tf.drop_handle(&mut e);
    assert!(!e.is_alive(p));
}

#[test]
fn three_clones_and_four_drops_leak_nothing() {
    let mut e: Engine<NativeTypeface> = Engine::new();
    assert_eq!(e.live_objects(), 0);
    let tf = Typeface::new_default(&mut e);
    let c1 = tf.clone_handle(&mut e);
    let c2 = tf.clone_handle(&mut e);
    let c3 = tf.clone_handle(&mut e);
    assert_eq!(e.live_objects(), 1);
    let p = tf.ptr;
    c1.drop_handle(&mut e);
    c2.drop_handle(&mut e);
    c3.drop_handle(&mut e);
    assert!(e.is_alive(p));
    tf.drop_handle(&mut e);
    assert!(!e.is_alive(p));
    assert_eq!(e.live_objects(), 0);
}

#[test]
fn unshared_wrap_takes_a_share() {
    let mut e: Engine<NativeTypeface> = Engine::new();
    let tf = Typeface::new_default(&mut e);
    let other = RCHandle::from_unshared_ptr(tf.ptr, &mut e).unwrap();
    tf.drop_handle(&mut e);
    assert!(e.is_alive(other.ptr));
    other.drop_handle(&mut e);
    assert_eq!(e.live_objects(), 0);
}

#[test]
fn owned_handle_round_trip() {
    let h = Handle::from_native(41i32);
    assert_eq!(*h.native(), 41);
    let mut h = h;
    *h.native_mut() = 42;
    assert_eq!(h.into_native(), 42);
}

#[test]
fn borrow_reads_without_owning() {
    let value = 7u32;
    let b = Borrows::from_ref(&value);
    assert_eq!(*b.native(), 7);
}

#[test]
fn test_create_null_canvas() {
    let mut e = Engine::new();
    let nc = new_null_canvas(&mut e);
    nc.drop_handle(&mut e);
    assert_eq!(e.live_objects(), 0);
}

#[test]
fn null_canvas_swallows_draws() {
    let mut e = Engine::new();
    let nc = Canvas::new_null(&mut e);
    let paint = Paint::default();
    let appended = nc.canvas().draw_circle(Point::new(1, 1), 1, &paint, &mut e);
    assert!(!appended);
    nc.drop_handle(&mut e);
}

#[test]
fn test_svg() {
    let mut e = Engine::new();
    let mut canvas =
        skia_safe::svg::canvas::Canvas::new(Rect::from_size(ISize::new(20, 20)), &mut e);
    let paint = Paint::default();
    canvas.draw_circle(Point::new(10, 10), 10, &paint, &mut e);
    let data = canvas.end(&mut e);
    let contents = data.as_text();
    assert!(contents
        .contains(r#"<ellipse fill="rgb(0,0,0)" stroke="none" cx="10" cy="10" rx="10" ry="10"/>"#));
    assert!(contents.contains(r#"</svg>"#));
}

#[test]
fn test_svg_without_ending() {
    let mut e = Engine::new();
    let mut canvas =
        skia_safe::svg::canvas::Canvas::new(Rect::from_size(ISize::new(20, 20)), &mut e);
    let paint = Paint::default();
    canvas.draw_circle(Point::new(10, 10), 10, &paint, &mut e);
    canvas.drop_handle(&mut e);
    assert_eq!(e.live_objects(), 0);
}

#[test]
fn ended_canvas_teardown_is_a_no_op() {
    let mut e = Engine::new();
    let mut canvas =
        skia_safe::svg::canvas::Canvas::new(Rect::from_size(ISize::new(20, 20)), &mut e);
    let data = canvas.end(&mut e);
    assert!(data.as_text().contains("</svg>"));
    assert_eq!(e.live_objects(), 0);
    let before = e.live_objects();
    canvas.drop_handle(&mut e);
    assert_eq!(e.live_objects(), before);
}

#[test]
fn drop_order_does_not_matter() {
    let mut e: Engine<NativeTypeface> = Engine::new();
    let tf = Typeface::new_default(&mut e);
    let c1 = tf.clone_handle(&mut e);
    let c2 = tf.clone_handle(&mut e);
    let c3 = tf.clone_handle(&mut e);
    let p = tf.ptr;
    tf.drop_handle(&mut e);
    c2.drop_handle(&mut e);
    assert!(e.is_alive(p));
    c3.drop_handle(&mut e);
    assert!(e.is_alive(p));
    c1.drop_handle(&mut e);
    assert!(!e.is_alive(p));
    assert_eq!(e.live_objects(), 0);
}

use splittable::split::Splittable;

#[test]
fn accessors_show_the_parts() {
    let s = Splittable::new(5u8, String::from("out"));
    assert_eq!(*s.get_r(), 5);
    assert_eq!(s.get_w(), "out");
}

#[test]
fn accessors_show_what_split_yields() {
    let s = Splittable::new(vec![1u8, 2], String::from("out"));
    let seen_r = s.get_r().clone();
    let seen_w = s.get_w().clone();
    let (r, w) = s.split();
    assert_eq!(*r, seen_r);
    assert_eq!(*w, seen_w);
}

#[test]
fn mutable_accessors_change_one_part_each() {
    let mut s = Splittable::new(vec![1u8], String::from("a"));
    s.get_r_mut().push(2);
    assert_eq!(s.get_r(), &vec![1u8, 2]);
    assert_eq!(s.get_w(), "a");
    s.get_w_mut().push('b');
    assert_eq!(s.get_r(), &vec![1u8, 2]);
    assert_eq!(s.get_w(), "ab");
    let (r, w) = s.split();
    assert_eq!(*r, vec![1u8, 2]);
    assert_eq!(*w, "ab");
}

#[test]
fn the_combined_object_stands_in_for_its_read_part() {
    let mut s = Splittable::new(vec![1u8], 0u8);
    assert_eq!(s.len(), 1);
    s.push(9);
    assert_eq!(*s, vec![1u8, 9]);
    assert_eq!(*s.get_w(), 0);
}

#[test]
fn each_half_stands_in_for_its_part() {
    let (mut r, mut w) = Splittable::new(vec![1u8], String::from("a")).split();
    assert_eq!(r.len(), 1);
    assert_eq!(w.len(), 1);
    r.push(2);
    w.push('b');
    assert_eq!(*r, vec![1u8, 2]);
    assert_eq!(*w, "ab");
    // A change of the part leaves the token as it was.
    assert!(r.is_pair_of(&w));
    let s = r.unsplit(w);
    assert_eq!(s.get_r(), &vec![1u8, 2]);
    assert_eq!(s.get_w(), "ab");
}

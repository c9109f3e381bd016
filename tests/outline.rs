use unit_circle::outline::{outline_degrees, OUTLINE_SAMPLES};

#[test]
fn outline_has_one_sample_per_degree() {
    let d = outline_degrees();
    assert_eq!(d.len(), OUTLINE_SAMPLES);
    assert_eq!(d.len(), 361);
    for (i, deg) in d.iter().enumerate() {
        assert_eq!(*deg as usize, i);
    }
}

#[test]
fn outline_closes_on_its_first_sample() {
    let d = outline_degrees();
    assert_eq!(d[0], 0);
    assert_eq!(d[360], 360);
    assert_eq!(d[0] % 360, d[360] % 360);
}

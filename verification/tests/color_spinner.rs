use spotk::color_spinner::ColorSpinner;

#[test]
fn spinner_cycles_through_the_palette() {
    let mut spinner = ColorSpinner::new(3);
    let got: Vec<usize> = (0..7).map(|_| spinner.next()).collect();
    assert_eq!(got, vec![0, 1, 2, 0, 1, 2, 0]);
}

#[test]
fn spinner_over_one_colour_stays_on_it() {
    let mut spinner = ColorSpinner::new(1);
    assert_eq!(spinner.next(), 0);
    assert_eq!(spinner.next(), 0);
}

use indicatif::{ProgressBar, ProgressStyle};
use trunk_common::spinner_template;

#[test]
fn the_template_names_its_regions() {
    assert_eq!(spinner_template(), "{spinner} {prefix} trunk | {wide_msg}");
}

#[test]
fn the_template_is_accepted_by_the_renderer() {
    let style = ProgressStyle::default_spinner().template(spinner_template());
    assert!(style.is_ok());
    let _bar = ProgressBar::new_spinner().with_style(style.unwrap());
}

use gcsf::configuration::Configuration;
use gcsf::options::{mount_arguments, OPTION_MARKER};

fn strings(items: &[&str]) -> Vec<String> {
    items.iter().map(|s| s.to_string()).collect()
}

#[test]
fn marker_is_dash_o() {
    assert_eq!(OPTION_MARKER, "-o");
}

#[test]
fn no_options_give_no_arguments() {
    assert_eq!(mount_arguments(&Vec::new()), Vec::<String>::new());
}

#[test]
fn one_option_gives_marker_and_value() {
    assert_eq!(mount_arguments(&strings(&["allow_root"])), strings(&["-o", "allow_root"]));
}

#[test]
fn each_option_follows_a_marker() {
    let args = mount_arguments(&strings(&["fsname=GCSF", "allow_root", "big_writes"]));
    assert_eq!(
        args,
        strings(&["-o", "fsname=GCSF", "-o", "allow_root", "-o", "big_writes"])
    );
}

#[test]
fn default_options_give_eight_arguments() {
    let config = Configuration::default();
    let args = mount_arguments(config.mount_options());
    assert_eq!(
        args,
        strings(&[
            "-o",
            "fsname=GCSF",
            "-o",
            "allow_root",
            "-o",
            "big_writes",
            "-o",
            "max_write=131072",
        ])
    );
}

#[test]
fn argument_count_is_twice_the_option_count() {
    for n in 0..6usize {
        let values: Vec<String> = (0..n).map(|i| format!("opt{}", i)).collect();
        let args = mount_arguments(&values);
        assert_eq!(args.len(), 2 * n);
        for (i, arg) in args.iter().enumerate() {
            if i % 2 == 0 {
                assert_eq!(arg, "-o");
            } else {
                assert_eq!(arg, &values[i / 2]);
            }
        }
    }
}

#[test]
fn arguments_never_end_on_a_marker() {
    let args = mount_arguments(&strings(&["a", "b"]));
    assert_eq!(args.last().map(String::as_str), Some("b"));
    assert_ne!(args.last().map(String::as_str), Some("-o"));
}

#[test]
fn an_option_that_reads_like_the_marker_is_kept() {
    assert_eq!(mount_arguments(&strings(&["-o"])), strings(&["-o", "-o"]));
}

#[test]
fn the_option_list_is_left_as_it_was() {
    let values = strings(&["x", "y"]);
    let _ = mount_arguments(&values);
    assert_eq!(values, strings(&["x", "y"]));
}

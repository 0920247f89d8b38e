use lenny_fetch::faces::{faces, lay_out};
use lenny_fetch::info::{Info, Sources};

fn strings(text: &[&str]) -> Vec<String> {
    text.iter().map(|l| l.to_string()).collect()
}

#[test]
fn there_are_eight_faces() {
    let table = faces();
    assert_eq!(table.len(), 8);
    assert_eq!(table[0], ("( \u{361}\u{b0} \u{35c}\u{296} \u{361}\u{b0})", 3));
    assert_eq!(table[1], ("(\u{2310}\u{25a0}_\u{25a0})", 4));
    assert_eq!(table[2], ("\u{af}\\_\u{30c4}_/\u{af}", 3));
    assert_eq!(table[3], ("(\u{ca0}_\u{ca0})", 5));
    assert_eq!(table[4], ("\u{f3c} \u{3064} \u{25d5}_\u{25d5} \u{f3d}\u{3064}  ", 2));
    assert_eq!(
        table[5],
        ("(\u{30ce}\u{ca0}\u{76ca}\u{ca0})\u{30ce}\u{5f61}\u{253b}\u{2501}\u{253b}", 2)
    );
    assert_eq!(
        table[6],
        ("(\u{256f}\u{b0}\u{25a1}\u{b0}\u{ff09}\u{256f}\u{fe35} \u{253b}\u{2501}\u{253b}", 2)
    );
    assert_eq!(table[7], ("(\u{25d5}\u{203f}\u{25d5}\u{273f})", 4));
}

#[test]
fn face_stands_before_every_line() {
    let lines = strings(&["", "amy@box\t\t", "=======", ""]);
    assert_eq!(
        lay_out(":)", 3, &lines),
        strings(&[":):):)\t", ":):):)\tamy@box\t\t", ":):):)\t=======", ":):):)\t"])
    );
}

#[test]
fn face_written_no_times_leaves_the_tab() {
    assert_eq!(lay_out(":)", 0, &strings(&["a", "b"])), strings(&["\ta", "\tb"]));
    assert_eq!(lay_out(":)", 2, &Vec::new()), Vec::<String>::new());
}

#[test]
fn printed_face_is_one_of_the_table() {
    let info = Info::new(Sources::default());
    let lines = strings(&["", "Kernel:\tLinux", ""]);
    for _ in 0..200 {
        let printed = info.print_faces(&lines);
        let matching = faces()
            .iter()
            .filter(|(face, times)| printed == lay_out(face, *times, &lines))
            .count();
        assert_eq!(matching, 1);
    }
}

#[test]
fn every_face_is_printed_sooner_or_later() {
    let info = Info::new(Sources::default());
    let lines = strings(&["x"]);
    let mut seen = vec![false; 8];
    for _ in 0..4000 {
        let printed = info.print_faces(&lines);
        for (k, (face, times)) in faces().iter().enumerate() {
            if printed == lay_out(face, *times, &lines) {
                seen[k] = true;
            }
        }
    }
    assert_eq!(seen, vec![true; 8]);
}

use keisen::chars::sections;

#[test]
fn palette_order_and_first_characters() {
    let s = sections();
    let titles: Vec<&str> = s.iter().map(|x| x.title).collect();
    assert_eq!(titles, vec!["よく使う", "細", "太", "二重", "混"]);
    assert_eq!(s[0].chars, vec!['├', '│', '└', '─', '┬']);
    assert!(s[4].chars.contains(&'┨'));
    assert!(s[3].chars.contains(&'═'));
}

#[test]
fn every_button_is_box_drawing() {
    for section in sections() {
        assert!(!section.chars.is_empty());
        for c in section.chars {
            assert!(('\u{2500}'..='\u{257F}').contains(&c), "{c}");
        }
    }
}

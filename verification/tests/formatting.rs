use window_reopen::digits::dec_string;
use window_reopen::windows::{window_config, reopen_plan, WINDOW_SIZE, WINDOW_COUNT};

#[test]
fn decimal_rendering_is_exact() {
    assert_eq!(dec_string(0), "0");
    assert_eq!(dec_string(7), "7");
    assert_eq!(dec_string(10), "10");
    assert_eq!(dec_string(42), "42");
    assert_eq!(dec_string(600), "600");
    assert_eq!(dec_string(1000), "1000");
    assert_eq!(dec_string(u32::MAX), "4294967295");
}

#[test]
fn identity_and_title_embed_generation_and_label() {
    let w = window_config(12, 3);
    assert_eq!(w.label, 'd');
    assert_eq!(w.identity, "12-d");
    assert_eq!(w.title, "d (attempt 12)");
    let w = window_config(0, 0);
    assert_eq!(w.identity, "0-a");
    assert_eq!(w.title, "a (attempt 0)");
}

#[test]
fn positions_are_the_fixed_permutation() {
    for generation in [0u32, 3, 7] {
        let labels = ['a', 'b', 'c', 'd', 'e', 'f'];
        for i in 0..WINDOW_COUNT {
            let w = window_config(generation, i);
            assert_eq!(w.label, labels[i]);
            assert_eq!(w.x, 100 * i as u32);
            assert_eq!(w.y, 100 * i as u32);
            assert_eq!(w.width, WINDOW_SIZE);
            assert_eq!(w.height, WINDOW_SIZE);
            assert_eq!(w.width, 600);
            assert_eq!(w.height, 600);
        }
    }
}

#[test]
fn plan_holds_six_windows_in_label_order() {
    let plan = reopen_plan(4);
    assert_eq!(plan.len(), 6);
    let expected = ["4-a", "4-b", "4-c", "4-d", "4-e", "4-f"];
    for (w, want) in plan.iter().zip(expected.iter()) {
        assert_eq!(&w.identity, want);
        assert_eq!(w.title, format!("{} (attempt 4)", w.label));
    }
}

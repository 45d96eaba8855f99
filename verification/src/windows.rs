//! The fixed window set: six labels with fixed positions and one shared
//! size, and the construction of each window's identity string
//! ("{generation}-{label}") and title ("{label} (attempt {generation})").

use vstd::prelude::*;
use crate::digits::{digit_char, spec_dec, lemma_dec_injective, dec_string};

verus! {

/// Width and height shared by every window.
pub const WINDOW_SIZE: u32 = 600;

/// How many windows one generation holds.
pub const WINDOW_COUNT: usize = 6;

/// The six window labels, in the order in which opens are attempted.
pub open spec fn labels() -> Seq<char> {
    seq!['a', 'b', 'c', 'd', 'e', 'f']
}

/// The fixed position of the window at index `i`: both coordinates are
/// `100 * i`, so a maps to (0,0), b to (100,100), ..., f to (500,500).
pub open spec fn position_of(i: int) -> int {
    100 * i
}

/// The identity string of the window with label `label` in generation
/// `generation`: "{generation}-{label}".
pub open spec fn spec_identity(generation: nat, label: char) -> Seq<char> {
    spec_dec(generation) + seq!['-', label]
}

/// The infix of every window title, between the label and the generation.
pub open spec fn title_infix() -> Seq<char> {
    seq![' ', '(', 'a', 't', 't', 'e', 'm', 'p', 't', ' ']
}

/// The title string of the window with label `label` in generation
/// `generation`: "{label} (attempt {generation})".
pub open spec fn spec_title(generation: nat, label: char) -> Seq<char> {
    seq![label] + title_infix() + spec_dec(generation) + seq![')']
}

/// One window as handed to the host windowing layer: identity, title,
/// position, and content size.
pub struct WindowConfig {
    pub label: char,
    pub identity: String,
    pub title: String,
    pub x: u32,
    pub y: u32,
    pub width: u32,
    pub height: u32,
}

/// `w` is exactly the window that index `i` of generation `generation`
/// calls for: the i-th label, the derived identity and title, position
/// (100*i, 100*i), and size 600 by 600.
pub open spec fn wf_window(w: WindowConfig, generation: nat, i: int) -> bool {
    &&& 0 <= i < 6
    &&& w.label == labels()[i]
    &&& w.identity@ == spec_identity(generation, labels()[i])
    &&& w.title@ == spec_title(generation, labels()[i])
    &&& w.x == position_of(i)
    &&& w.y == position_of(i)
    &&& w.width == WINDOW_SIZE
    &&& w.height == WINDOW_SIZE
}

/// Identities determine the generation and the label: two windows with
/// the same identity string come from the same generation and carry the
/// same label.
pub proof fn lemma_identity_injective(g1: nat, l1: char, g2: nat, l2: char)
    requires
        spec_identity(g1, l1) == spec_identity(g2, l2),
    ensures
        g1 == g2,
        l1 == l2,
{
    let s1 = spec_identity(g1, l1);
    let s2 = spec_identity(g2, l2);
    assert(s1.last() == l1);
    assert(s2.last() == l2);
    assert(s1.drop_last().drop_last() =~= spec_dec(g1));
    assert(s2.drop_last().drop_last() =~= spec_dec(g2));
    lemma_dec_injective(g1, g2);
}

/// Windows of distinct generations never share an identity, whatever
/// their labels: no window of a prior generation can collide with one of
/// the current generation.
pub proof fn lemma_generations_disjoint(g1: nat, l1: char, g2: nat, l2: char)
    requires
        g1 != g2,
    ensures
        spec_identity(g1, l1) != spec_identity(g2, l2),
{
    if spec_identity(g1, l1) == spec_identity(g2, l2) {
        lemma_identity_injective(g1, l1, g2, l2);
    }
}

/// Within one generation, distinct labels give distinct identities.
pub proof fn lemma_labels_distinct(g: nat, l1: char, l2: char)
    requires
        l1 != l2,
    ensures
        spec_identity(g, l1) != spec_identity(g, l2),
{
    if spec_identity(g, l1) == spec_identity(g, l2) {
        lemma_identity_injective(g, l1, g, l2);
    }
}

/// The one-character string for the label at index `i`.
fn label_str(i: usize) -> (r: &'static str)
    requires
        i < 6,
    ensures
        r@ =~= seq![labels()[i as int]],
{
    proof {
        reveal_strlit("a");
        reveal_strlit("b");
        reveal_strlit("c");
        reveal_strlit("d");
        reveal_strlit("e");
        reveal_strlit("f");
    }
    match i {
        0 => "a",
        1 => "b",
        2 => "c",
        3 => "d",
        4 => "e",
        _ => "f",
    }
}

/// Builds the identity string "{generation}-{label}" for index `i`.
fn identity_string(generation: u32, i: usize) -> (s: String)
    requires
        i < 6,
    ensures
        s@ == spec_identity(generation as nat, labels()[i as int]),
{
    let mut s = dec_string(generation);
    proof {
        reveal_strlit("-");
    }
    s.append("-");
    s.append(label_str(i));
    assert(s@ =~= spec_identity(generation as nat, labels()[i as int]));
    s
}

/// Builds the title string "{label} (attempt {generation})" for index `i`.
fn title_string(generation: u32, i: usize) -> (s: String)
    requires
        i < 6,
    ensures
        s@ == spec_title(generation as nat, labels()[i as int]),
{
    let mut s = label_str(i).to_owned();
    proof {
        reveal_strlit(" (attempt ");
        reveal_strlit(")");
    }
    s.append(" (attempt ");
    let digits = dec_string(generation);
    s.append(digits.as_str());
    s.append(")");
    assert(s@ =~= spec_title(generation as nat, labels()[i as int]));
    s
}

/// Constructs the window at index `i` of generation `generation`: the
/// identity and title embed the generation, the position is the fixed
/// one for that index, and the size is 600 by 600.
pub fn window_config(generation: u32, i: usize) -> (w: WindowConfig)
    requires
        i < 6,
    ensures
        wf_window(w, generation as nat, i as int),
{
    let label: char = match i {
        0 => 'a',
        1 => 'b',
        2 => 'c',
        3 => 'd',
        4 => 'e',
        _ => 'f',
    };
    let x: u32 = 100 * (i as u32);
    WindowConfig {
        label,
        identity: identity_string(generation, i),
        title: title_string(generation, i),
        x,
        y: x,
        width: WINDOW_SIZE,
        height: WINDOW_SIZE,
    }
}

/// The full batch for one generation: the six windows in open order
/// (a, b, c, d, e, f), each as `window_config` builds it.
pub fn reopen_plan(generation: u32) -> (v: Vec<WindowConfig>)
    ensures
        v@.len() == 6,
        forall|i: int| 0 <= i < 6 ==> wf_window(v@[i], generation as nat, i),
{
    let mut v: Vec<WindowConfig> = Vec::new();
    let mut i: usize = 0;
    while i < WINDOW_COUNT
        invariant
            i <= 6,
            v@.len() == i,
            forall|j: int| 0 <= j < i ==> wf_window(v@[j], generation as nat, j),
        decreases 6 - i,
    {
        v.push(window_config(generation, i));
        i = i + 1;
    }
    v
}

} // verus!

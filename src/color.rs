use vstd::prelude::*;

verus! {

/// Number of colours in the palette that series without a colour cycle through.
pub const PALETTE_LEN: usize = 7;

/// The palette, in the order in which it is handed out.
pub open spec fn palette() -> Seq<Seq<char>> {
    seq![
        "olivedrab"@,
        "lightcoral"@,
        "royalblue"@,
        "peru"@,
        "darkcyan"@,
        "saddlebrown"@,
        "darkmagenta"@,
    ]
}

/// How many of the given colours are absent.
pub open spec fn uncolored_count(colors: Seq<Option<Seq<char>>>) -> nat
    decreases colors.len(),
{
    if colors.len() == 0 {
        0
    } else {
        uncolored_count(colors.drop_last()) + if colors.last() is None { 1nat } else { 0nat }
    }
}

/// The colour that series `i` is drawn with: its own colour if it has one,
/// else the palette entry after as many slots as series before it lacked a
/// colour. Series with an explicit colour use up no palette slot.
pub open spec fn assigned_color(colors: Seq<Option<Seq<char>>>, i: int) -> Seq<char> {
    match colors[i] {
        Some(c) => c,
        None => palette()[(uncolored_count(colors.take(i)) % (PALETTE_LEN as nat)) as int],
    }
}

/// The palette entry at `i`.
pub fn palette_color(i: usize) -> (r: String)
    requires
        i < PALETTE_LEN,
    ensures
        r@ == palette()[i as int],
{
    if i == 0 {
        String::from_str("olivedrab")
    } else if i == 1 {
        String::from_str("lightcoral")
    } else if i == 2 {
        String::from_str("royalblue")
    } else if i == 3 {
        String::from_str("peru")
    } else if i == 4 {
        String::from_str("darkcyan")
    } else if i == 5 {
        String::from_str("saddlebrown")
    } else {
        String::from_str("darkmagenta")
    }
}

proof fn lemma_uncolored_push(colors: Seq<Option<Seq<char>>>, i: int)
    requires
        0 <= i < colors.len(),
    ensures
        uncolored_count(colors.take(i + 1)) == uncolored_count(colors.take(i)) + if colors[i] is None { 1nat } else { 0nat },
        uncolored_count(colors.take(i)) <= i,
    decreases i,
{
    assert(colors.take(i + 1).drop_last() =~= colors.take(i));
    if i > 0 {
        lemma_uncolored_push(colors, i - 1);
    } else {
        assert(colors.take(0).len() == 0);
    }
}

/// The colour of every series, given the explicit colours they carry.
pub fn assign_colors(colors: &Vec<Option<String>>) -> (r: Vec<String>)
    ensures
        r@.len() == colors@.len(),
        forall|i: int| 0 <= i < r@.len() ==> #[trigger] r@[i]@ == assigned_color(colors@.map_values(|c: Option<String>| crate::series::opt_view(c)), i),
{
    let ghost views = colors@.map_values(|c: Option<String>| crate::series::opt_view(c));
    let mut r: Vec<String> = Vec::new();
    let mut slot: usize = 0;
    let mut i: usize = 0;
    while i < colors.len()
        invariant
            i <= colors@.len(),
            views == colors@.map_values(|c: Option<String>| crate::series::opt_view(c)),
            r@.len() == i,
            slot < PALETTE_LEN,
            slot == uncolored_count(views.take(i as int)) % (PALETTE_LEN as nat),
            forall|j: int| 0 <= j < i ==> #[trigger] r@[j]@ == assigned_color(views, j),
        decreases colors@.len() - i,
    {
        proof { lemma_uncolored_push(views, i as int); }
        match &colors[i] {
            Some(c) => {
                r.push(c.clone());
            },
            None => {
                r.push(palette_color(slot));
                slot = if slot + 1 == PALETTE_LEN { 0 } else { slot + 1 };
            },
        }
        i = i + 1;
    }
    r
}

proof fn lemma_palette_distinct()
    ensures
        forall|i: int, j: int| 0 <= i < j < PALETTE_LEN ==> palette()[i] != palette()[j],
{
    reveal_strlit("olivedrab");
    reveal_strlit("lightcoral");
    reveal_strlit("royalblue");
    reveal_strlit("peru");
    reveal_strlit("darkcyan");
    reveal_strlit("saddlebrown");
    reveal_strlit("darkmagenta");
    let p = palette();
    assert(p[0].len() == 9);
    assert(p[1].len() == 10);
    assert(p[2].len() == 9);
    assert(p[3].len() == 4);
    assert(p[4].len() == 8);
    assert(p[5].len() == 11);
    assert(p[6].len() == 11);
    assert(p[0][0] != p[2][0]);
    assert(p[5][0] != p[6][0]);
    assert forall|i: int, j: int| 0 <= i < j < PALETTE_LEN implies palette()[i] != palette()[j] by {
        if i == 0 && j == 2 {
        } else if i == 5 && j == 6 {
        } else {
            assert(p[i].len() != p[j].len());
        }
    }
}

proof fn lemma_leading_uncolored(colors: Seq<Option<Seq<char>>>, k: int, i: int)
    requires
        0 <= i <= k <= colors.len(),
        forall|j: int| 0 <= j < k ==> colors[j] is None,
    ensures
        uncolored_count(colors.take(i)) == i,
    decreases i,
{
    if i == 0 {
        assert(colors.take(0).len() == 0);
    } else {
        lemma_leading_uncolored(colors, k, i - 1);
        lemma_uncolored_push(colors, i - 1);
    }
}

/// Colour assignment: a series that carries a colour is drawn with it,
/// wherever it stands; and when the first `k` series (at most as many as the
/// palette holds) carry none, they receive the palette's first `k` entries
/// in order, all different.
pub proof fn lemma_color_assignment(colors: Seq<Option<Seq<char>>>, k: int)
    requires
        0 <= k <= PALETTE_LEN,
        k <= colors.len(),
        forall|j: int| 0 <= j < k ==> colors[j] is None,
    ensures
        forall|i: int| 0 <= i < colors.len() && colors[i] is Some ==> #[trigger] assigned_color(colors, i) == colors[i]->Some_0,
        forall|i: int| 0 <= i < k ==> #[trigger] assigned_color(colors, i) == palette()[i],
        forall|i: int, j: int| 0 <= i < j < k ==> assigned_color(colors, i) != assigned_color(colors, j),
{
    assert forall|i: int| 0 <= i < k implies #[trigger] assigned_color(colors, i) == palette()[i] by {
        lemma_leading_uncolored(colors, k, i);
    }
    lemma_palette_distinct();
}

} // verus!

use vstd::prelude::*;

verus! {

/// Milliseconds at the ten knots of the autoplay duration scale; knot `i`
/// sits at scalar value `100 * i`.
pub open spec fn duration_knot_ms(i: int) -> int {
    if i <= 0 {
        500
    } else if i == 1 {
        1000
    } else if i == 2 {
        2000
    } else if i == 3 {
        3000
    } else if i == 4 {
        5000
    } else if i == 5 {
        10000
    } else if i == 6 {
        15000
    } else if i == 7 {
        30000
    } else if i == 8 {
        60000
    } else {
        120000
    }
}

/// The duration in milliseconds that a scalar-field value stands for.
///
/// Inside `[0, 900)` the value is interpolated linearly between the two
/// neighbouring knots (the difference of neighbouring knots is a multiple of
/// 100, so the interpolation is exact).  From 900 on it is the last knot.
/// Below 0 the first segment is extended (`500 + 5 * value`), saturated at
/// `i32::MIN`.
pub open spec fn duration_value_to_ms(value: int) -> int {
    if value < 0 {
        let x = 500 + 5 * value;
        if x < i32::MIN {
            i32::MIN as int
        } else {
            x
        }
    } else if value >= 900 {
        120000
    } else {
        let i = value / 100;
        let r = value % 100;
        duration_knot_ms(i) + (duration_knot_ms(i + 1) - duration_knot_ms(i)) * r / 100
    }
}

/// The least value in `[start, 900]` whose duration reaches `ms`, or 900
/// when there is none.
pub open spec fn least_value_reaching(ms: int, start: int) -> int
    decreases 900 - start,
{
    if start >= 900 {
        900
    } else if duration_value_to_ms(start) >= ms {
        start
    } else {
        least_value_reaching(ms, start + 1)
    }
}

/// The scalar-field value for a duration: the least value in `[0, 900]`
/// whose duration is at least `ms` (900 when no value reaches it).
pub open spec fn duration_ms_to_value(ms: int) -> int {
    least_value_reaching(ms, 0)
}

fn knot_ms(i: usize) -> (r: i32)
    requires
        i < 10,
    ensures
        r == duration_knot_ms(i as int),
{
    match i {
        0 => 500,
        1 => 1000,
        2 => 2000,
        3 => 3000,
        4 => 5000,
        5 => 10000,
        6 => 15000,
        7 => 30000,
        8 => 60000,
        _ => 120000,
    }
}

/// Convert a scalar-field value (0..900) to milliseconds by interpolating
/// between the knots of the duration table.
pub fn DurationValueToMS(value: i64) -> (ms: i32)
    ensures
        ms == duration_value_to_ms(value as int),
{
    if value < 0 {
        if value <= -429496830 {
            i32::MIN
        } else {
            (500 + 5 * value) as i32
        }
    } else if value >= 900 {
        120000
    } else {
        let i = (value / 100) as usize;
        let r = (value % 100) as i32;
        let a = knot_ms(i);
        let b = knot_ms(i + 1);
        let step = (b - a) / 100;
        proof {
            let d = b - a;
            assert(d % 100 == 0) by {
                assert(0 <= i < 9);
            }
            assert(0 <= r < 100);
            assert(0 < step <= 600);
            assert(d * r / 100 == r * step) by (nonlinear_arith)
                requires
                    d % 100 == 0,
                    step == d / 100,
                    0 <= r < 100,
            ;
            assert(0 <= r * step <= 99 * 600) by (nonlinear_arith)
                requires
                    0 <= r < 100,
                    0 < step <= 600,
            ;
        }
        a + r * step
    }
}

/// Within the scale, one step up always lengthens the duration.
proof fn lemma_duration_step(v: int)
    requires
        0 <= v < 900,
    ensures
        duration_value_to_ms(v) < duration_value_to_ms(v + 1),
{
    let i = v / 100;
    let r = v % 100;
    let d = duration_knot_ms(i + 1) - duration_knot_ms(i);
    assert(0 <= i < 9);
    assert(d >= 500 && d % 100 == 0);
    if r < 99 {
        assert((v + 1) / 100 == i && (v + 1) % 100 == r + 1);
        assert(d * r / 100 < d * (r + 1) / 100) by (nonlinear_arith)
            requires
                d >= 500,
                d % 100 == 0,
                0 <= r < 99,
        ;
    } else {
        assert((v + 1) / 100 == i + 1 && (v + 1) % 100 == 0);
        assert(d * r / 100 < d) by (nonlinear_arith)
            requires
                d >= 500,
                r == 99,
        ;
    }
}

/// The duration strictly increases over the whole scale `[0, 900]`.
pub proof fn lemma_duration_strictly_increasing(a: int, b: int)
    requires
        0 <= a < b <= 900,
    ensures
        duration_value_to_ms(a) < duration_value_to_ms(b),
    decreases b - a,
{
    lemma_duration_step(b - 1);
    if a < b - 1 {
        lemma_duration_strictly_increasing(a, b - 1);
    }
}

proof fn lemma_least_value_reaching(ms: int, start: int, r: int)
    requires
        0 <= start <= r <= 900,
        forall|u: int| start <= u < r ==> duration_value_to_ms(u) < ms,
        r < 900 ==> duration_value_to_ms(r) >= ms,
    ensures
        least_value_reaching(ms, start) == r,
    decreases r - start,
{
    if start < r {
        lemma_least_value_reaching(ms, start + 1, r);
    }
}

/// Convert milliseconds back to a scalar-field value (0..900) by binary
/// search over the value domain.
pub fn DurationMSToValue(ms: i32) -> (value: i64)
    ensures
        value == duration_ms_to_value(ms as int),
        0 <= value <= 900,
        forall|u: int| 0 <= u < value ==> duration_value_to_ms(u) < ms,
        value < 900 ==> duration_value_to_ms(value as int) >= ms,
{
    let mut lo: i64 = 0;
    let mut hi: i64 = 900;
    while lo < hi
        invariant
            0 <= lo <= hi <= 900,
            forall|u: int| 0 <= u < lo ==> duration_value_to_ms(u) < ms,
            hi < 900 ==> duration_value_to_ms(hi as int) >= ms,
        decreases hi - lo,
    {
        let mid = (lo + hi) / 2;
        if DurationValueToMS(mid) < ms {
            assert forall|u: int| 0 <= u < mid + 1 implies duration_value_to_ms(u) < ms by {
                if u < mid {
                    lemma_duration_strictly_increasing(u, mid as int);
                }
            }
            lo = mid + 1;
        } else {
            hi = mid;
        }
    }
    proof {
        lemma_least_value_reaching(ms as int, 0, lo as int);
    }
    lo
}

/// Every value of the scale is found again from its own duration.
pub proof fn lemma_duration_round_trip(value: int)
    requires
        0 <= value <= 900,
    ensures
        duration_ms_to_value(duration_value_to_ms(value)) == value,
{
    let ms = duration_value_to_ms(value);
    assert forall|u: int| 0 <= u < value implies duration_value_to_ms(u) < ms by {
        lemma_duration_strictly_increasing(u, value);
    }
    lemma_least_value_reaching(ms, 0, value);
}

/// At the knot values `100 * i` of the scale the durations are those of the
/// fixed table: 500, 1000, 2000, 3000, 5000, 10000, 15000, 30000, 60000 and
/// 120000 milliseconds; each of these durations converts back to its knot.
pub proof fn lemma_duration_knots()
    ensures
        duration_value_to_ms(0) == 500,
        duration_value_to_ms(100) == 1000,
        duration_value_to_ms(200) == 2000,
        duration_value_to_ms(300) == 3000,
        duration_value_to_ms(400) == 5000,
        duration_value_to_ms(500) == 10000,
        duration_value_to_ms(600) == 15000,
        duration_value_to_ms(700) == 30000,
        duration_value_to_ms(800) == 60000,
        duration_value_to_ms(900) == 120000,
        duration_ms_to_value(500) == 0,
        duration_ms_to_value(1000) == 100,
        duration_ms_to_value(2000) == 200,
        duration_ms_to_value(3000) == 300,
        duration_ms_to_value(5000) == 400,
        duration_ms_to_value(10000) == 500,
        duration_ms_to_value(15000) == 600,
        duration_ms_to_value(30000) == 700,
        duration_ms_to_value(60000) == 800,
        duration_ms_to_value(120000) == 900,
{
    assert(100int / 100 == 1 && 100int % 100 == 0);
    assert(200int / 100 == 2 && 200int % 100 == 0);
    assert(300int / 100 == 3 && 300int % 100 == 0);
    assert(400int / 100 == 4 && 400int % 100 == 0);
    assert(500int / 100 == 5 && 500int % 100 == 0);
    assert(600int / 100 == 6 && 600int % 100 == 0);
    assert(700int / 100 == 7 && 700int % 100 == 0);
    assert(800int / 100 == 8 && 800int % 100 == 0);
    lemma_duration_round_trip(0);
    lemma_duration_round_trip(100);
    lemma_duration_round_trip(200);
    lemma_duration_round_trip(300);
    lemma_duration_round_trip(400);
    lemma_duration_round_trip(500);
    lemma_duration_round_trip(600);
    lemma_duration_round_trip(700);
    lemma_duration_round_trip(800);
    lemma_duration_round_trip(900);
}

/// Between two neighbouring knots the duration grows by the same amount
/// for every step of the value: the scale is linear on each segment.
pub proof fn lemma_duration_linear_segments(v: int)
    requires
        0 <= v < 900,
        v % 100 != 99,
    ensures
        duration_value_to_ms(v + 1) - duration_value_to_ms(v) == (duration_value_to_ms(
            (v / 100) * 100 + 100,
        ) - duration_value_to_ms((v / 100) * 100)) / 100,
{
    let i = v / 100;
    let r = v % 100;
    let d = duration_knot_ms(i + 1) - duration_knot_ms(i);
    assert(0 <= i < 9);
    assert(d % 100 == 0);
    assert((v + 1) / 100 == i && (v + 1) % 100 == r + 1);
    assert((i * 100) / 100 == i && (i * 100) % 100 == 0);
    if i < 8 {
        assert((i * 100 + 100) / 100 == i + 1 && (i * 100 + 100) % 100 == 0);
    }
    assert(d * (r + 1) / 100 - d * r / 100 == d / 100) by (nonlinear_arith)
        requires
            d % 100 == 0,
            0 <= r < 99,
    ;
    assert(d * 0 / 100 == 0);
}

/// Identifies a panel of the panel tree.
#[derive(Debug, Clone, Copy, PartialEq, Eq, Structural, Hash)]
pub struct PanelId {
    pub id: u64,
}

/// The labels of the autoplay control buttons, in layout order.
pub open spec fn autoplay_button_label(i: int) -> Seq<char> {
    if i == 0 {
        "Autoplay"@
    } else if i == 1 {
        "Previous"@
    } else if i == 2 {
        "Next"@
    } else {
        "Continue Last"@
    }
}

/// The buttons read, in layout order, "Autoplay" (the panel's own title),
/// "Previous", "Next" and "Continue Last".
pub proof fn lemma_autoplay_button_labels()
    ensures
        autoplay_button_label(0) == "Autoplay"@,
        autoplay_button_label(1) == "Previous"@,
        autoplay_button_label(2) == "Next"@,
        autoplay_button_label(3) == "Continue Last"@,
{
}

/// Control panel for autoplay settings: a title and four buttons (autoplay,
/// previous, next, continue last), created once.
pub struct emAutoplayControlPanel {
    children_created: bool,
    btn_autoplay: Option<PanelId>,
    btn_prev: Option<PanelId>,
    btn_next: Option<PanelId>,
    btn_continue_last: Option<PanelId>,
}

impl emAutoplayControlPanel {
    /// Whether the buttons have been created.
    pub closed spec fn created(&self) -> bool {
        self.children_created
    }

    /// The buttons, in layout order.
    pub closed spec fn buttons(&self) -> Seq<Option<PanelId>> {
        seq![self.btn_autoplay, self.btn_prev, self.btn_next, self.btn_continue_last]
    }

    /// A panel whose buttons are not created yet.
    pub fn new() -> (p: Self)
        ensures
            !p.created(),
            p.buttons() == seq![None::<PanelId>, None, None, None],
    {
        emAutoplayControlPanel {
            children_created: false,
            btn_autoplay: None,
            btn_prev: None,
            btn_next: None,
            btn_continue_last: None,
        }
    }

    /// The title of the panel: "Autoplay".
    pub fn get_title(&self) -> (t: Option<String>)
        ensures
            t matches Some(s) && s@ == "Autoplay"@,
    {
        Some("Autoplay".to_owned())
    }

    /// The panel paints its whole area.
    pub fn IsOpaque(&self) -> (o: bool)
        ensures
            o,
    {
        true
    }

    /// Whether the buttons have been created.
    pub fn are_children_created(&self) -> (c: bool)
        ensures
            c == self.created(),
    {
        self.children_created
    }

    /// The label of button `i` (0 to 3).
    pub fn button_label(i: usize) -> (l: &'static str)
        requires
            i < 4,
        ensures
            l@ == autoplay_button_label(i as int),
    {
        if i == 0 {
            "Autoplay"
        } else if i == 1 {
            "Previous"
        } else if i == 2 {
            "Next"
        } else {
            "Continue Last"
        }
    }

    /// The name of the child panel of button `i` (0 to 3): "btn_" and `i`.
    pub fn button_name(i: usize) -> (n: String)
        requires
            i < 4,
        ensures
            n@ == "btn_"@ + seq![('0' as u32 + i) as char],
    {
        let digit: &str = if i == 0 {
            "0"
        } else if i == 1 {
            "1"
        } else if i == 2 {
            "2"
        } else {
            "3"
        };
        proof {
            reveal_strlit("0");
            reveal_strlit("1");
            reveal_strlit("2");
            reveal_strlit("3");
        }
        let n = "btn_".to_owned().concat(digit);
        assert(n@ =~= "btn_"@ + seq![('0' as u32 + i) as char]);
        n
    }

    /// Record the panels created for the buttons, in layout order.
    pub fn set_children(&mut self, ids: [PanelId; 4])
        ensures
            final(self).created(),
            final(self).buttons() == seq![Some(ids[0]), Some(ids[1]), Some(ids[2]), Some(ids[3])],
    {
        self.btn_autoplay = Some(ids[0]);
        self.btn_prev = Some(ids[1]);
        self.btn_next = Some(ids[2]);
        self.btn_continue_last = Some(ids[3]);
        self.children_created = true;
    }

    /// The created buttons, in layout order (buttons not created are
    /// skipped).
    pub fn layout_order(&self) -> (ids: Vec<PanelId>)
        ensures
            ids@ == self.buttons().filter(|b: Option<PanelId>| b is Some).map_values(
                |b: Option<PanelId>| b->0,
            ),
    {
        let all = [self.btn_autoplay, self.btn_prev, self.btn_next, self.btn_continue_last];
        let mut ids: Vec<PanelId> = Vec::new();
        let mut i: usize = 0;
        while i < 4
            invariant
                0 <= i <= 4,
                all@ == self.buttons(),
                ids@ == self.buttons().take(i as int).filter(|b: Option<PanelId>| b is Some).map_values(
                    |b: Option<PanelId>| b->0,
                ),
            decreases 4 - i,
        {
            proof {
                reveal_with_fuel(Seq::<Option<PanelId>>::filter, 2);
                assert(self.buttons().take(i + 1).drop_last() =~= self.buttons().take(i as int));
            }
            if let Some(id) = all[i] {
                ids.push(id);
            }
            proof {
                let f = self.buttons().take(i as int).filter(|b: Option<PanelId>| b is Some);
                let g = self.buttons().take(i + 1).filter(|b: Option<PanelId>| b is Some);
                if all@[i as int] is Some {
                    assert(g =~= f.push(all@[i as int]));
                } else {
                    assert(g =~= f);
                }
            }
            i = i + 1;
        }
        proof {
            assert(self.buttons().take(4) =~= self.buttons());
        }
        ids
    }
}

} // verus!

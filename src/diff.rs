//! The diff engine: one primitive edit at a time from what the remote shows
//! towards what the input holds.
use crate::edit::PrimitiveEdit;
use vstd::prelude::*;

verus! {

/// A character that the remote display can show.
pub open spec fn is_ascii_char(c: char) -> bool {
    (c as u32) < 128
}

/// Every character of `s` is ASCII.
pub open spec fn all_ascii(s: Seq<char>) -> bool {
    forall|i: int| 0 <= i < s.len() ==> #[trigger] is_ascii_char(s[i])
}

/// `s` with its non-ASCII characters removed, the others kept in order.
pub open spec fn ascii_only(s: Seq<char>) -> Seq<char>
    decreases s.len(),
{
    if s.len() == 0 {
        Seq::empty()
    } else {
        let rest = ascii_only(s.drop_last());
        if is_ascii_char(s.last()) {
            rest.push(s.last())
        } else {
            rest
        }
    }
}

/// The target is so much shorter than the display that clearing beats
/// backspacing: twice its length plus one is still under the display's.
pub open spec fn ratio_clear(display: Seq<char>, target: Seq<char>) -> bool {
    target.len() * 2 + 1 < display.len()
}

/// The edit that the engine takes from `display` towards `target`, when the
/// two differ.
pub open spec fn next_edit(display: Seq<char>, target: Seq<char>) -> PrimitiveEdit {
    if target.len() == 0 {
        PrimitiveEdit::Clear
    } else if ratio_clear(display, target) {
        PrimitiveEdit::Clear
    } else if display.is_prefix_of(target) {
        PrimitiveEdit::Append(target[display.len() as int])
    } else if target.is_prefix_of(display) {
        PrimitiveEdit::Backspace
    } else {
        PrimitiveEdit::Clear
    }
}

/// What a display shows after it applies `e`.
pub open spec fn apply_edit(display: Seq<char>, e: PrimitiveEdit) -> Seq<char> {
    match e {
        PrimitiveEdit::Append(c) => display.push(c),
        PrimitiveEdit::Backspace => if display.len() == 0 {
            display
        } else {
            display.drop_last()
        },
        PrimitiveEdit::Clear => Seq::empty(),
    }
}

/// The display after `k` steps of the engine towards a fixed target.
pub open spec fn run(display: Seq<char>, target: Seq<char>, k: nat) -> Seq<char>
    decreases k,
{
    if k == 0 {
        display
    } else {
        run(apply_edit(display, next_edit(display, target)), target, (k - 1) as nat)
    }
}

/// How many edits the engine emits to go from `display` to a fixed `target`:
/// none when they agree; one clear when the target is empty; a clear and then
/// one append per character when the ratio rule fires or neither is a prefix
/// of the other; otherwise one append or one backspace per character of
/// difference.
pub open spec fn convergence_steps(display: Seq<char>, target: Seq<char>) -> nat {
    if display == target {
        0
    } else if target.len() == 0 {
        1
    } else if ratio_clear(display, target) {
        1 + target.len()
    } else if display.is_prefix_of(target) {
        (target.len() - display.len()) as nat
    } else if target.is_prefix_of(display) {
        (display.len() - target.len()) as nat
    } else {
        1 + target.len()
    }
}

/// One step of the engine brings the count of remaining steps down by one.
pub proof fn lemma_step_decreases(display: Seq<char>, target: Seq<char>)
    requires
        display != target,
    ensures
        convergence_steps(display, target) > 0,
        convergence_steps(apply_edit(display, next_edit(display, target)), target)
            == convergence_steps(display, target) - 1,
{
    let e = next_edit(display, target);
    let d2 = apply_edit(display, e);
    if target.len() == 0 {
        assert(d2 =~= target);
    } else if ratio_clear(display, target) {
        assert(d2 =~= Seq::<char>::empty());
        assert(d2.is_prefix_of(target));
        assert(d2 != target);
    } else if display.is_prefix_of(target) {
        if display.len() == target.len() {
            assert(display =~= target);
        }
        assert(d2 =~= target.take(display.len() + 1 as int));
        assert(d2.is_prefix_of(target));
        if d2.len() == target.len() {
            assert(d2 =~= target);
        } else {
            assert(d2 != target);
        }
    } else if target.is_prefix_of(display) {
        if display.len() == target.len() {
            assert(display =~= target);
        }
        assert(d2 =~= display.take(display.len() - 1 as int));
        assert(target.is_prefix_of(d2));
        if d2.len() == target.len() {
            assert(d2 =~= target);
        } else {
            assert(d2 != target);
            assert(!d2.is_prefix_of(target));
        }
    } else {
        assert(d2 =~= Seq::<char>::empty());
        assert(d2.is_prefix_of(target));
        assert(d2 != target);
    }
}

/// The edits that the engine emits in its first `k` steps towards a fixed
/// target.
pub open spec fn edits_from(display: Seq<char>, target: Seq<char>, k: nat) -> Seq<PrimitiveEdit>
    decreases k,
{
    if k == 0 {
        Seq::empty()
    } else {
        let e = next_edit(display, target);
        seq![e] + edits_from(apply_edit(display, e), target, (k - 1) as nat)
    }
}

/// Step `k + 1` of a run starts where step `k` ended.
pub proof fn lemma_run_extend(display: Seq<char>, target: Seq<char>, k: nat)
    ensures
        run(display, target, k + 1) == apply_edit(
            run(display, target, k),
            next_edit(run(display, target, k), target),
        ),
        edits_from(display, target, k + 1) == edits_from(display, target, k).push(
            next_edit(run(display, target, k), target),
        ),
    decreases k,
{
    let d2 = apply_edit(display, next_edit(display, target));
    if k == 0 {
        assert(run(display, target, 1) == run(d2, target, 0));
        assert(edits_from(d2, target, 0) =~= Seq::<PrimitiveEdit>::empty());
        assert(edits_from(display, target, 1) =~= seq![next_edit(display, target)]);
    } else {
        lemma_run_extend(d2, target, (k - 1) as nat);
        assert(run(display, target, k + 1) == run(d2, target, k));
        assert(run(display, target, k) == run(d2, target, (k - 1) as nat));
        assert(edits_from(display, target, k + 1) =~= edits_from(display, target, k).push(
            next_edit(run(display, target, k), target),
        ));
    }
}

/// Convergence: from any display, the engine with a fixed target shows the
/// target after exactly `convergence_steps` edits, and at no earlier step.
pub proof fn lemma_converges(display: Seq<char>, target: Seq<char>)
    ensures
        run(display, target, convergence_steps(display, target)) == target,
        forall|k: nat|
            k < convergence_steps(display, target) ==> #[trigger] run(display, target, k)
                != target,
    decreases convergence_steps(display, target),
{
    if display != target {
        lemma_step_decreases(display, target);
        let d2 = apply_edit(display, next_edit(display, target));
        lemma_converges(d2, target);
        assert forall|k: nat| k < convergence_steps(display, target) implies #[trigger] run(
            display,
            target,
            k,
        ) != target by {
            if k > 0 {
                assert(run(display, target, k) == run(d2, target, (k - 1) as nat));
            }
        }
    }
}

/// The count of edits case by case: one when the target is empty or the
/// ratio rule fires, the difference in length when one is a prefix of the
/// other, else one clear followed by the count from the empty display. It
/// leaves out the inputs where a single edit does not finish the work: both
/// empty (no edit at all), and a ratio clear towards a non-empty target
/// (which appends afterwards).
pub proof fn lemma_convergence_count_cases(display: Seq<char>, target: Seq<char>)
    requires
        !(display.len() == 0 && target.len() == 0),
        !(ratio_clear(display, target) && target.len() > 0),
    ensures
        run(display, target, convergence_steps(display, target)) == target,
        target.len() == 0 || ratio_clear(display, target) ==> convergence_steps(display, target)
            == 1,
        !(target.len() == 0 || ratio_clear(display, target)) && display.is_prefix_of(target)
            ==> convergence_steps(display, target) == target.len() - display.len(),
        !(target.len() == 0 || ratio_clear(display, target)) && !display.is_prefix_of(target)
            && target.is_prefix_of(display) ==> convergence_steps(display, target)
            == display.len() - target.len(),
        !(target.len() == 0 || ratio_clear(display, target)) && !display.is_prefix_of(target)
            && !target.is_prefix_of(display) ==> convergence_steps(display, target) == 1
            + convergence_steps(Seq::empty(), target),
{
    lemma_converges(display, target);
    if display == target {
        assert(display.is_prefix_of(target));
    }
    let e = Seq::<char>::empty();
    assert(e.is_prefix_of(target));
    if target.len() > 0 {
        assert(e != target);
    }
}

/// Removing non-ASCII characters leaves only ASCII ones.
pub proof fn lemma_ascii_only_is_ascii(s: Seq<char>)
    ensures
        all_ascii(ascii_only(s)),
    decreases s.len(),
{
    if s.len() > 0 {
        lemma_ascii_only_is_ascii(s.drop_last());
    }
}

/// An edit taken towards an ASCII target appends only ASCII characters and
/// keeps an ASCII display ASCII.
pub proof fn lemma_edit_keeps_ascii(display: Seq<char>, target: Seq<char>)
    requires
        all_ascii(display),
        all_ascii(target),
        display != target,
    ensures
        next_edit(display, target) matches PrimitiveEdit::Append(c) ==> is_ascii_char(c),
        all_ascii(apply_edit(display, next_edit(display, target))),
{
    if !(target.len() == 0 || ratio_clear(display, target)) && display.is_prefix_of(target) {
        if display.len() == target.len() {
            assert(display =~= target);
        }
        assert(is_ascii_char(target[display.len() as int]));
    }
    let d2 = apply_edit(display, next_edit(display, target));
    assert forall|i: int| 0 <= i < d2.len() implies #[trigger] is_ascii_char(d2[i]) by {
        if i < display.len() {
            assert(is_ascii_char(display[i]));
        }
    }
}

/// `s` with its non-ASCII characters removed.
pub fn filter_ascii(s: &Vec<char>) -> (r: Vec<char>)
    ensures
        r@ == ascii_only(s@),
{
    let mut r: Vec<char> = Vec::new();
    let mut i: usize = 0;
    while i < s.len()
        invariant
            i <= s.len(),
            r@ == ascii_only(s@.take(i as int)),
        decreases s.len() - i,
    {
        let c = s[i];
        assert(s@.take(i + 1 as int).drop_last() =~= s@.take(i as int));
        if (c as u32) < 128 {
            r.push(c);
        }
        i = i + 1;
    }
    assert(s@.take(i as int) =~= s@);
    r
}

/// Whether `p` is a prefix of `s`.
pub fn starts_with(s: &Vec<char>, p: &Vec<char>) -> (r: bool)
    ensures
        r == p@.is_prefix_of(s@),
{
    if p.len() > s.len() {
        return false;
    }
    let mut i: usize = 0;
    while i < p.len()
        invariant
            p.len() <= s.len(),
            i <= p.len(),
            forall|j: int| 0 <= j < i ==> p@[j] == s@[j],
        decreases p.len() - i,
    {
        if p[i] != s[i] {
            return false;
        }
        i = i + 1;
    }
    true
}

/// Whether `a` and `b` hold the same characters.
pub fn same_chars(a: &Vec<char>, b: &Vec<char>) -> (r: bool)
    ensures
        r == (a@ == b@),
{
    let r = a.len() == b.len() && starts_with(a, b);
    if r {
        assert(a@ =~= b@);
    }
    r
}

/// The edit that leads from `display` towards `target`: a clear when the
/// target is empty or far shorter, an append when characters were added at
/// the end, a backspace when characters were removed from the end, and a
/// clear otherwise.
pub fn decide(display: &Vec<char>, target: &Vec<char>) -> (r: PrimitiveEdit)
    requires
        display@ != target@,
    ensures
        r == next_edit(display@, target@),
{
    let t = target.len();
    let d = display.len();
    if t == 0 {
        PrimitiveEdit::Clear
    } else if t < d && d - t - 1 > t {
        PrimitiveEdit::Clear
    } else if starts_with(target, display) {
        if d == t {
            assert(display@ =~= target@);
        }
        PrimitiveEdit::Append(target[d])
    } else if starts_with(display, target) {
        PrimitiveEdit::Backspace
    } else {
        PrimitiveEdit::Clear
    }
}

/// The engine's state: the text believed to be shown on the remote display.
pub struct DiffEngine {
    display: Vec<char>,
}

impl View for DiffEngine {
    type V = Seq<char>;

    closed spec fn view(&self) -> Seq<char> {
        self.display@
    }
}

impl DiffEngine {
    /// The display holds only characters it can show.
    pub open spec fn wf(&self) -> bool {
        all_ascii(self@)
    }

    /// An engine whose remote display is empty.
    pub fn new() -> (r: DiffEngine)
        ensures
            r@ == Seq::<char>::empty(),
            r.wf(),
    {
        DiffEngine { display: Vec::new() }
    }

    /// The text believed to be shown on the remote display.
    pub fn display(&self) -> (r: Vec<char>)
        ensures
            r@ == self@,
    {
        let mut r: Vec<char> = Vec::new();
        let mut i: usize = 0;
        while i < self.display.len()
            invariant
                i <= self.display.len(),
                r@ == self.display@.take(i as int),
            decreases self.display.len() - i,
        {
            r.push(self.display[i]);
            i = i + 1;
            assert(r@ =~= self.display@.take(i as int));
        }
        assert(self.display@.take(i as int) =~= self.display@);
        r
    }

    /// Applies `e` to the display.
    fn apply(&mut self, e: PrimitiveEdit)
        ensures
            final(self)@ == apply_edit(old(self)@, e),
    {
        match e {
            PrimitiveEdit::Append(c) => {
                self.display.push(c);
            },
            PrimitiveEdit::Backspace => {
                if self.display.len() > 0 {
                    self.display.pop();
                }
            },
            PrimitiveEdit::Clear => {
                self.display = Vec::new();
            },
        }
    }

    /// One step towards `input` with its non-ASCII characters removed: no
    /// edit when the display already shows it, else the edit that
    /// `next_edit` gives, applied to the display.
    pub fn step(&mut self, input: &Vec<char>) -> (r: Option<PrimitiveEdit>)
        requires
            old(self).wf(),
        ensures
            final(self).wf(),
            ascii_only(input@) == old(self)@ ==> r is None && final(self)@ == old(self)@,
            ascii_only(input@) != old(self)@ ==> r == Some(
                next_edit(old(self)@, ascii_only(input@)),
            ) && final(self)@ == apply_edit(old(self)@, next_edit(old(self)@, ascii_only(input@))),
            r matches Some(PrimitiveEdit::Append(c)) ==> is_ascii_char(c),
    {
        let target = filter_ascii(input);
        if same_chars(&self.display, &target) {
            return None;
        }
        proof {
            lemma_ascii_only_is_ascii(input@);
            lemma_edit_keeps_ascii(self@, target@);
        }
        let e = decide(&self.display, &target);
        self.apply(e);
        Some(e)
    }

    /// Steps towards `input` with its non-ASCII characters removed until the
    /// display shows it, and returns the edits in the order taken.
    pub fn converge(&mut self, input: &Vec<char>) -> (r: Vec<PrimitiveEdit>)
        requires
            old(self).wf(),
        ensures
            final(self).wf(),
            final(self)@ == ascii_only(input@),
            r@.len() == convergence_steps(old(self)@, ascii_only(input@)),
            r@ == edits_from(
                old(self)@,
                ascii_only(input@),
                convergence_steps(old(self)@, ascii_only(input@)),
            ),
    {
        let target = filter_ascii(input);
        let ghost start = self@;
        let ghost total = convergence_steps(start, target@);
        let mut edits: Vec<PrimitiveEdit> = Vec::new();
        proof {
            lemma_ascii_only_is_ascii(input@);
        }
        while !same_chars(&self.display, &target)
            invariant
                self.wf(),
                target@ == ascii_only(input@),
                all_ascii(target@),
                self@ == run(start, target@, edits@.len()),
                edits@ == edits_from(start, target@, edits@.len()),
                edits@.len() + convergence_steps(self@, target@) == total,
            decreases convergence_steps(self@, target@),
        {
            proof {
                lemma_step_decreases(self@, target@);
                lemma_edit_keeps_ascii(self@, target@);
                lemma_run_extend(start, target@, edits@.len());
            }
            let e = decide(&self.display, &target);
            self.apply(e);
            edits.push(e);
        }
        edits
    }
}

} // verus!

//! Decisions taken while driving the game page: where the login form is,
//! whether a login went through, which frame holds the game, and which texts
//! read from the page are payouts, balances and cashout amounts.
use vstd::prelude::*;
use crate::responses::texts_view;
use crate::text::{
    all_ascii, is_ascii_digit,
    char_is_numeric, join, lowercase_of, numeric_char, owned, push_char, seq_contains, str_contains,
    to_lowercase, trim, trim_trailing_slashes, trimmed, without_trailing_slashes,
};

verus! {

/// The command-line arguments the browser is started with: a fixed window
/// size and sandbox settings, and `--headless` when asked for.
pub fn browser_args(headless: bool) -> (r: Vec<String>)
    ensures
        r@.len() == (if headless { 6int } else { 5int }),
        r@[0]@ == "--width=1480"@,
        r@[1]@ == "--height=1080"@,
        r@[2]@ == "--no-sandbox"@,
        r@[3]@ == "--disable-dev-shm-usage"@,
        r@[4]@ == "--disable-gpu"@,
        headless ==> r@[5]@ == "--headless"@,
{
    let mut r: Vec<String> = Vec::new();
    r.push(owned("--width=1480"));
    r.push(owned("--height=1080"));
    r.push(owned("--no-sandbox"));
    r.push(owned("--disable-dev-shm-usage"));
    r.push(owned("--disable-gpu"));
    if headless {
        r.push(owned("--headless"));
    }
    r
}

/// How many times the game frame is looked for before giving up.
pub const IFRAME_ATTEMPTS: u32 = 10;

/// The attributes of one frame on the page, each absent when it could not be read.
#[derive(Debug, Clone)]
pub struct IframeAttrs {
    pub src: Option<String>,
    pub id: Option<String>,
    pub name: Option<String>,
}

/// Which frame to enter.
#[derive(Debug, Clone, Copy, PartialEq, Eq, Structural)]
pub enum IframeChoice {
    /// The frame at this index has a source address that names the game.
    BySource(usize),
    /// The frame at this index has an id or name that names the game.
    ByLabel(usize),
    /// No frame names the game: look inside each one, and enter the frame at
    /// `fallback` (the last) if none shows the game.
    Probe { fallback: usize },
    /// There is no frame yet: wait and look again.
    Retry,
}

/// A frame whose id or whose name contains "aviator" or "game" (in any case)
/// is a label match, and no other frame is.
pub proof fn lemma_label_match_by_id_or_name(f: IframeAttrs)
    ensures
        id_names_game(f) ==> label_match(f),
        name_names_game(f) ==> label_match(f),
        label_match(f) ==> id_names_game(f) || name_names_game(f),
{
}

/// The login page of a site: its address without trailing slashes, then `/login`.
pub open spec fn spec_login_page_url(site_url: Seq<char>, r: Seq<char>) -> bool {
    exists|base: Seq<char>| without_trailing_slashes(site_url, base) && r == base + "/login"@
}

pub open spec fn spec_src_marks_game(src: Seq<char>) -> bool {
    let l = lowercase_of(src);
    seq_contains(l, "aviator"@) || seq_contains(l, "spribe"@) || seq_contains(l, "casino"@)
        || seq_contains(l, "game"@) || seq_contains(l, "play"@)
}

pub open spec fn spec_label_marks_game(label: Seq<char>) -> bool {
    let l = lowercase_of(label);
    seq_contains(l, "aviator"@) || seq_contains(l, "game"@)
}

pub open spec fn source_match(f: IframeAttrs) -> bool {
    f.src matches Some(s) && spec_src_marks_game(s@)
}

/// The frame's id names the game.
pub open spec fn id_names_game(f: IframeAttrs) -> bool {
    &&& f.id matches Some(i)
    &&& seq_contains(lowercase_of(i@), "aviator"@) || seq_contains(lowercase_of(i@), "game"@)
}

/// The frame's name names the game.
pub open spec fn name_names_game(f: IframeAttrs) -> bool {
    &&& f.name matches Some(n)
    &&& seq_contains(lowercase_of(n@), "aviator"@) || seq_contains(lowercase_of(n@), "game"@)
}

pub open spec fn label_match(f: IframeAttrs) -> bool {
    (f.id matches Some(i) && spec_label_marks_game(i@)) || (f.name matches Some(n) && spec_label_marks_game(n@))
}

/// The address of a site's login page.
pub fn login_page_url(site_url: &str) -> (r: String)
    ensures
        spec_login_page_url(site_url@, r@),
{
    let base = trim_trailing_slashes(site_url);
    let r = join(base.as_str(), "/login");
    assert(without_trailing_slashes(site_url@, base@));
    r
}

/// The outcome of submitting the login form, judged by the address the browser ended on.
pub fn login_outcome(current_url: &str) -> (r: Result<String, String>)
    ensures
        seq_contains(current_url@, "login"@) ==> (r matches Err(e) && e@ == "Login failed - still on login page"@),
        !seq_contains(current_url@, "login"@) ==> (r matches Ok(m) && m@ == "Login successful"@),
{
    if str_contains(current_url, "login") {
        Err(owned("Login failed - still on login page"))
    } else {
        Ok(owned("Login successful"))
    }
}

/// Whether an already lowercased source address names the game.
pub fn lowered_src_marks_game(l: &str) -> (r: bool)
    ensures
        r == (seq_contains(l@, "aviator"@) || seq_contains(l@, "spribe"@) || seq_contains(l@, "casino"@)
            || seq_contains(l@, "game"@) || seq_contains(l@, "play"@)),
{
    str_contains(l, "aviator") || str_contains(l, "spribe") || str_contains(l, "casino")
        || str_contains(l, "game") || str_contains(l, "play")
}

/// Whether an already lowercased id or name names the game.
pub fn lowered_label_marks_game(l: &str) -> (r: bool)
    ensures
        r == (seq_contains(l@, "aviator"@) || seq_contains(l@, "game"@)),
{
    str_contains(l, "aviator") || str_contains(l, "game")
}

/// Whether a frame's source address names the game.
pub fn src_marks_game(src: &str) -> (r: bool)
    ensures
        r == spec_src_marks_game(src@),
{
    let l = to_lowercase(src);
    lowered_src_marks_game(l.as_str())
}

/// Whether a frame's id or name names the game.
pub fn label_marks_game(label: &str) -> (r: bool)
    ensures
        r == spec_label_marks_game(label@),
{
    let l = to_lowercase(label);
    lowered_label_marks_game(l.as_str())
}

fn frame_source_matches(f: &IframeAttrs) -> (r: bool)
    ensures
        r == source_match(*f),
{
    match &f.src {
        Some(s) => src_marks_game(s.as_str()),
        None => false,
    }
}

fn frame_label_matches(f: &IframeAttrs) -> (r: bool)
    ensures
        r == label_match(*f),
{
    let by_id = match &f.id {
        Some(i) => label_marks_game(i.as_str()),
        None => false,
    };
    if by_id {
        return true;
    }
    match &f.name {
        Some(n) => label_marks_game(n.as_str()),
        None => false,
    }
}

/// Which frame to enter: the first whose source names the game, else the
/// first whose id or name does, else a look inside each one.
pub fn choose_iframe(frames: &Vec<IframeAttrs>) -> (r: IframeChoice)
    ensures
        r matches IframeChoice::BySource(i) ==> i < frames@.len() && source_match(frames@[i as int])
            && forall|j: int| 0 <= j < i ==> !source_match(#[trigger] frames@[j]),
        r matches IframeChoice::ByLabel(i) ==> i < frames@.len() && label_match(frames@[i as int])
            && (forall|j: int| 0 <= j < frames@.len() ==> !source_match(#[trigger] frames@[j]))
            && forall|j: int| 0 <= j < i ==> !label_match(#[trigger] frames@[j]),
        r matches IframeChoice::Probe { fallback } ==> frames@.len() > 0 && fallback == frames@.len() - 1
            && forall|j: int| 0 <= j < frames@.len() ==> !source_match(#[trigger] frames@[j]) && !label_match(frames@[j]),
        r is Retry <==> frames@.len() == 0,
        r is Probe ==> forall|j: int| 0 <= j < frames@.len() ==> !id_names_game(#[trigger] frames@[j]) && !name_names_game(frames@[j]),
{
    let mut i: usize = 0;
    while i < frames.len()
        invariant
            i <= frames@.len(),
            forall|j: int| 0 <= j < i ==> !source_match(#[trigger] frames@[j]),
        decreases frames.len() - i,
    {
        if frame_source_matches(&frames[i]) {
            return IframeChoice::BySource(i);
        }
        i = i + 1;
    }
    let mut k: usize = 0;
    while k < frames.len()
        invariant
            k <= frames@.len(),
            forall|j: int| 0 <= j < frames@.len() ==> !source_match(#[trigger] frames@[j]),
            forall|j: int| 0 <= j < k ==> !label_match(#[trigger] frames@[j]),
        decreases frames.len() - k,
    {
        if frame_label_matches(&frames[k]) {
            return IframeChoice::ByLabel(k);
        }
        k = k + 1;
    }
    if frames.len() == 0 {
        IframeChoice::Retry
    } else {
        IframeChoice::Probe { fallback: frames.len() - 1 }
    }
}

/// What one attempt at finding the game frame does.
#[derive(Debug, Clone, Copy, PartialEq, Eq, Structural)]
pub enum FrameStep {
    /// Enter the frame at this index.
    Enter(usize),
    /// Look inside each frame; enter the one at `fallback` if none shows the game.
    Probe { fallback: usize },
    /// No frame yet: wait, then try again.
    Wait,
    /// No frame on the last attempt: wait, then give up.
    GiveUp,
}

/// The step taken on attempt `attempt` (counted from zero) from the frame
/// choice: a frame is entered or probed whenever there is one, and the search
/// gives up only when the last of the `IFRAME_ATTEMPTS` reads found no frame.
pub fn frame_step(attempt: u32, choice: IframeChoice) -> (r: FrameStep)
    requires
        attempt < IFRAME_ATTEMPTS,
    ensures
        choice matches IframeChoice::BySource(i) ==> r == FrameStep::Enter(i),
        choice matches IframeChoice::ByLabel(i) ==> r == FrameStep::Enter(i),
        choice matches IframeChoice::Probe { fallback } ==> r == (FrameStep::Probe { fallback }),
        choice is Retry && attempt + 1 < IFRAME_ATTEMPTS ==> r == FrameStep::Wait,
        choice is Retry && attempt + 1 == IFRAME_ATTEMPTS ==> r == FrameStep::GiveUp,
{
    match choice {
        IframeChoice::BySource(i) => FrameStep::Enter(i),
        IframeChoice::ByLabel(i) => FrameStep::Enter(i),
        IframeChoice::Probe { fallback } => FrameStep::Probe { fallback },
        IframeChoice::Retry => if attempt + 1 < IFRAME_ATTEMPTS {
            FrameStep::Wait
        } else {
            FrameStep::GiveUp
        },
    }
}

/// The error given once every attempt to find the game frame failed.
pub fn iframe_failure() -> (r: String)
    ensures
        r@ == "Could not enter Aviator iframe after 10 attempts"@,
{
    owned("Could not enter Aviator iframe after 10 attempts")
}

/// A payout label: a non-empty trimmed text with an `x` in it.
pub open spec fn is_payout_label(t: Seq<char>) -> bool {
    t.len() > 0 && seq_contains(t, "x"@)
}

/// The payout labels among texts read from the page, trimmed, in page order.
pub open spec fn payout_labels_of(texts: Seq<Seq<char>>) -> Seq<Seq<char>>
    decreases texts.len(),
{
    if texts.len() == 0 {
        Seq::empty()
    } else {
        let rest = payout_labels_of(texts.drop_last());
        let t = trimmed(texts.last());
        if is_payout_label(t) {
            rest.push(t)
        } else {
            rest
        }
    }
}

/// Every payout label is a non-empty trimmed text with an `x`, and there are
/// no more labels than texts.
pub proof fn lemma_payout_labels_are_labels(texts: Seq<Seq<char>>)
    ensures
        payout_labels_of(texts).len() <= texts.len(),
        forall|i: int| 0 <= i < payout_labels_of(texts).len() ==> is_payout_label(#[trigger] payout_labels_of(texts)[i]),
    decreases texts.len(),
{
    if texts.len() > 0 {
        lemma_payout_labels_are_labels(texts.drop_last());
    }
}

/// One more text read from the page adds exactly its trimmed form to the
/// labels when that is a payout label (even if it equals the label before),
/// and adds nothing otherwise; the earlier labels stay as they were.
pub proof fn lemma_payout_labels_append(texts: Seq<Seq<char>>, t: Seq<char>)
    ensures
        is_payout_label(trimmed(t)) ==> payout_labels_of(texts.push(t)) == payout_labels_of(texts).push(trimmed(t)),
        !is_payout_label(trimmed(t)) ==> payout_labels_of(texts.push(t)) == payout_labels_of(texts),
{
    assert(texts.push(t).drop_last() =~= texts);
}

/// The labels are the trimmed texts that are payout labels, one per such
/// text, in page order.
pub proof fn lemma_payout_labels_filter(texts: Seq<Seq<char>>)
    ensures
        payout_labels_of(texts) == texts.map_values(|t: Seq<char>| trimmed(t)).filter(|t: Seq<char>| is_payout_label(t)),
    decreases texts.len(),
{
    let m = texts.map_values(|t: Seq<char>| trimmed(t));
    reveal_with_fuel(Seq::filter, 1);
    if texts.len() > 0 {
        lemma_payout_labels_filter(texts.drop_last());
        assert(m.drop_last() =~= texts.drop_last().map_values(|t: Seq<char>| trimmed(t)));
        assert(m.last() == trimmed(texts.last()));
    } else {
        assert(m =~= Seq::empty());
    }
}

/// Whether an already trimmed text is a payout label.
pub fn is_payout_text(t: &str) -> (r: bool)
    ensures
        r == is_payout_label(t@),
{
    !t.is_empty() && str_contains(t, "x")
}

/// The payouts shown on the page, from the texts of its payout elements.
pub fn payout_labels(texts: &Vec<String>) -> (r: Vec<String>)
    ensures
        texts_view(r@) == payout_labels_of(texts_view(texts@)),
{
    let mut r: Vec<String> = Vec::new();
    let mut i: usize = 0;
    while i < texts.len()
        invariant
            i <= texts@.len(),
            texts_view(r@) == payout_labels_of(texts_view(texts@.take(i as int))),
        decreases texts.len() - i,
    {
        let t = trim(texts[i].as_str());
        let keep = is_payout_text(t.as_str());
        let ghost prefix = texts_view(texts@.take(i as int));
        let ghost next = texts_view(texts@.take(i + 1));
        assert(next.drop_last() =~= prefix);
        assert(next.last() == texts@[i as int]@);
        if keep {
            let ghost before = r@;
            r.push(t);
            assert(texts_view(r@) =~= texts_view(before).push(trimmed(texts@[i as int]@)));
        }
        i = i + 1;
    }
    assert(texts@.take(texts.len() as int) =~= texts@);
    r
}

/// The CSS selectors tried, in order, to find the balance on the page.
pub fn balance_selectors() -> (r: Vec<String>)
    ensures
        r@.len() == 4,
        r@[0]@ == ".balance-amount"@,
        r@[1]@ == "[class*='balance']"@,
        r@[2]@ == "[class*='amount']"@,
        r@[3]@ == ".header-right span"@,
{
    let mut r: Vec<String> = Vec::new();
    r.push(owned(".balance-amount"));
    r.push(owned("[class*='balance']"));
    r.push(owned("[class*='amount']"));
    r.push(owned(".header-right span"));
    r
}

/// The balance an element's text shows: the trimmed text, if any is left.
pub fn balance_label(text: &str) -> (r: Option<String>)
    ensures
        trimmed(text@).len() > 0 ==> (r matches Some(b) && b@ == trimmed(text@)),
        trimmed(text@).len() == 0 ==> r is None,
{
    let t = trim(text);
    if !t.as_str().is_empty() {
        Some(t)
    } else {
        None
    }
}

/// The characters of an amount that a number is read from: digits and points.
pub open spec fn amount_chars_of(s: Seq<char>) -> Seq<char> {
    s.filter(|c: char| numeric_char(c) || c == '.')
}

/// The characters of an ASCII amount that a number is read from.
pub open spec fn ascii_amount_chars_of(s: Seq<char>) -> Seq<char> {
    s.filter(|c: char| is_ascii_digit(c) || c == '.')
}

/// Keeps only the numeric characters and points of a displayed amount.
pub fn amount_digits(s: &str) -> (r: String)
    ensures
        r@ == amount_chars_of(s@),
        all_ascii(s@) ==> r@ == ascii_amount_chars_of(s@),
{
    let mut r = String::new();
    let n = s.unicode_len();
    let mut i: usize = 0;
    while i < n
        invariant
            n == s@.len(),
            i <= n,
            r@ == amount_chars_of(s@.take(i as int)),
            all_ascii(s@) ==> r@ == ascii_amount_chars_of(s@.take(i as int)),
        decreases n - i,
    {
        let c = s.get_char(i);
        assert(s@.take(i + 1).drop_last() =~= s@.take(i as int));
        reveal_with_fuel(Seq::filter, 1);
        if char_is_numeric(c) || c == '.' {
            push_char(&mut r, c);
        }
        i = i + 1;
    }
    assert(s@.take(n as int) =~= s@);
    r
}

} // verus!

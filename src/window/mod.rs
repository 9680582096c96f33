use vstd::prelude::*;

pub mod mapped;
pub mod toplevel;
pub mod unmapped;

use crate::render_helpers::BlockOutFrom;
use crate::utils::Size;

verus! {

#[verifier::external_type_specification]
#[verifier::external_body]
pub struct ExRegex(regex::Regex);

/// Whether `source` is a valid regular expression.
pub uninterp spec fn regex_valid(source: Seq<char>) -> bool;

/// Whether the regular expression `source` matches anywhere in `haystack`.
pub uninterp spec fn regex_match(source: Seq<char>, haystack: Seq<char>) -> bool;

/// A regular expression, kept with the text it was built from.
#[derive(Debug)]
pub struct Pattern {
    source: String,
    re: regex::Regex,
}

/// Why a pattern could not be built.
#[derive(Debug, Clone, Copy, PartialEq, Eq, Structural)]
pub enum PatternError {
    /// The text is not a valid regular expression.
    Invalid,
}

impl Pattern {
    /// The text the pattern was built from.
    pub closed spec fn source_spec(&self) -> Seq<char> {
        self.source@
    }

    /// Builds the pattern `source`; fails exactly when it is not a valid regular expression.
    pub fn new(source: &str) -> (r: Result<Pattern, PatternError>)
        ensures
            r is Ok <==> regex_valid(source@),
            r matches Ok(p) ==> p.source_spec() == source@,
            r matches Err(e) ==> e == PatternError::Invalid,
    {
        match compile_pattern(source) {
            Some(p) => Ok(p),
            None => Err(PatternError::Invalid),
        }
    }

    pub fn as_str(&self) -> (r: &str)
        ensures
            r@ == self.source_spec(),
    {
        self.source.as_str()
    }

    /// Whether the pattern matches anywhere in `haystack`.
    pub fn is_match(&self, haystack: &str) -> (r: bool)
        ensures
            r == regex_match(self.source_spec(), haystack@),
    {
        pattern_is_match(self, haystack)
    }
}

/// Relies on regex::Regex::new: compiles `source`, failing exactly when it is not a valid
/// regular expression; the pattern keeps `source` as its text.
#[verifier::external_body]
fn compile_pattern(source: &str) -> (r: Option<Pattern>)
    ensures
        r is Some <==> regex_valid(source@),
        r matches Some(p) ==> p.source_spec() == source@,
{
    match regex::Regex::new(source) {
        Ok(re) => Some(Pattern { source: source.to_string(), re }),
        Err(_) => None,
    }
}

/// Relies on regex::Regex::is_match: whether the pattern matches anywhere in `haystack`.
#[verifier::external_body]
fn pattern_is_match(p: &Pattern, haystack: &str) -> (r: bool)
    ensures
        r == regex_match(p.source_spec(), haystack@),
{
    p.re.is_match(haystack)
}

/// How a column shows its windows.
#[derive(Debug, Clone, Copy, PartialEq, Eq, Structural)]
pub enum ColumnDisplay {
    /// One above the other.
    Normal,
    /// As tabs, one at a time.
    Tabbed,
}

/// What window rules read of a window.
#[derive(Debug, Clone)]
pub struct WindowInfo {
    pub app_id: Option<String>,
    pub title: Option<String>,
    pub is_focused: bool,
    pub is_urgent: bool,
    /// Whether the next configure has the activated state.
    pub is_pending_activated: bool,
    pub is_active_in_column: bool,
    pub is_floating: bool,
    pub is_window_cast_target: bool,
}

/// A condition of a window rule; every field that is set must hold.
#[derive(Debug)]
pub struct Match {
    /// A pattern the application identifier must match.
    pub app_id: Option<Pattern>,
    /// A pattern the title must match.
    pub title: Option<Pattern>,
    pub is_focused: Option<bool>,
    pub is_urgent: Option<bool>,
    pub is_active: Option<bool>,
    pub is_active_in_column: Option<bool>,
    pub is_floating: Option<bool>,
    pub is_window_cast_target: Option<bool>,
    pub at_startup: Option<bool>,
}

/// The part of a match that does not depend on patterns.
pub open spec fn flags_match(w: WindowInfo, m: Match, is_at_startup: bool) -> bool {
    &&& (m.at_startup matches Some(s) ==> s == is_at_startup)
    &&& (m.is_focused matches Some(v) ==> v == w.is_focused)
    &&& (m.is_urgent matches Some(v) ==> v == w.is_urgent)
    &&& (m.is_active matches Some(v) ==> v == w.is_pending_activated)
    &&& (m.is_active_in_column matches Some(v) ==> v == w.is_active_in_column)
    &&& (m.is_floating matches Some(v) ==> v == w.is_floating)
    &&& (m.is_window_cast_target matches Some(v) ==> v == w.is_window_cast_target)
}

/// A pattern, if set, matches the text, which must then be there.
pub open spec fn pattern_matches(p: Option<Pattern>, text: Option<String>) -> bool {
    match p {
        None => true,
        Some(p) => text is Some && regex_match(p.source_spec(), text->0@),
    }
}

/// Whether the window meets the condition `m`: its flags and its patterns.
pub open spec fn window_matches_spec(w: WindowInfo, m: Match, is_at_startup: bool) -> bool {
    flags_match(w, m, is_at_startup) && pattern_matches(m.app_id, w.app_id) && pattern_matches(
        m.title,
        w.title,
    )
}

/// Whether `rule` applies to the window: it meets one of the matches (or there are none) and
/// none of the excludes.
pub open spec fn rule_applies_spec(w: WindowInfo, rule: WindowRule, is_at_startup: bool) -> bool {
    (rule.matches@.len() == 0 || exists|i: int|
        0 <= i < rule.matches@.len() && window_matches_spec(
            w,
            #[trigger] rule.matches@[i],
            is_at_startup,
        )) && !(exists|i: int|
        0 <= i < rule.excludes@.len() && window_matches_spec(
            w,
            #[trigger] rule.excludes@[i],
            is_at_startup,
        ))
}

/// Which of `rules` apply to the window.
pub open spec fn applying(rules: Seq<WindowRule>, w: WindowInfo, is_at_startup: bool) -> Seq<bool> {
    Seq::new(rules.len(), |i: int| rule_applies_spec(w, rules[i], is_at_startup))
}

/// A rule of the configuration: it applies to a window that meets one of `matches` (or
/// where there are none) and none of `excludes`, and sets what it sets.
#[derive(Debug)]
pub struct WindowRule {
    pub matches: Vec<Match>,
    pub excludes: Vec<Match>,
    pub default_column_display: Option<ColumnDisplay>,
    pub open_on_output: Option<String>,
    pub open_on_workspace: Option<String>,
    pub open_maximized: Option<bool>,
    pub open_fullscreen: Option<bool>,
    pub open_floating: Option<bool>,
    pub open_focused: Option<bool>,
    pub min_width: Option<u16>,
    pub min_height: Option<u16>,
    pub max_width: Option<u16>,
    pub max_height: Option<u16>,
    pub draw_border_with_background: Option<bool>,
    pub clip_to_geometry: Option<bool>,
    pub baba_is_float: Option<bool>,
    pub block_out_from: Option<BlockOutFrom>,
    pub variable_refresh_rate: Option<bool>,
    pub tiled_state: Option<bool>,
}

/// What the window rules that apply to a window say, the later rules overriding the earlier.
#[derive(Debug, Clone, PartialEq, Eq)]
pub struct ResolvedWindowRules {
    pub default_column_display: Option<ColumnDisplay>,
    pub open_on_output: Option<String>,
    pub open_on_workspace: Option<String>,
    pub open_maximized: Option<bool>,
    pub open_fullscreen: Option<bool>,
    pub open_floating: Option<bool>,
    pub open_focused: Option<bool>,
    pub min_width: Option<u16>,
    pub min_height: Option<u16>,
    pub max_width: Option<u16>,
    pub max_height: Option<u16>,
    pub draw_border_with_background: Option<bool>,
    pub clip_to_geometry: Option<bool>,
    pub baba_is_float: Option<bool>,
    pub block_out_from: Option<BlockOutFrom>,
    pub variable_refresh_rate: Option<bool>,
    pub tiled_state: Option<bool>,
}

/// `new` where it is set, else `old`.
pub open spec fn overridden<T>(old: Option<T>, new: Option<T>) -> Option<T> {
    if new is Some { new } else { old }
}

/// Rules that set nothing.
pub open spec fn no_rules() -> ResolvedWindowRules {
    ResolvedWindowRules {
        default_column_display: None,
        open_on_output: None,
        open_on_workspace: None,
        open_maximized: None,
        open_fullscreen: None,
        open_floating: None,
        open_focused: None,
        min_width: None,
        min_height: None,
        max_width: None,
        max_height: None,
        draw_border_with_background: None,
        clip_to_geometry: None,
        baba_is_float: None,
        block_out_from: None,
        variable_refresh_rate: None,
        tiled_state: None,
    }
}

/// `r` with what `rule` sets overriding it.
pub open spec fn apply_rule(r: ResolvedWindowRules, rule: WindowRule) -> ResolvedWindowRules {
    ResolvedWindowRules {
        default_column_display: overridden(r.default_column_display, rule.default_column_display),
        open_on_output: overridden(r.open_on_output, rule.open_on_output),
        open_on_workspace: overridden(r.open_on_workspace, rule.open_on_workspace),
        open_maximized: overridden(r.open_maximized, rule.open_maximized),
        open_fullscreen: overridden(r.open_fullscreen, rule.open_fullscreen),
        open_floating: overridden(r.open_floating, rule.open_floating),
        open_focused: overridden(r.open_focused, rule.open_focused),
        min_width: overridden(r.min_width, rule.min_width),
        min_height: overridden(r.min_height, rule.min_height),
        max_width: overridden(r.max_width, rule.max_width),
        max_height: overridden(r.max_height, rule.max_height),
        draw_border_with_background: overridden(
            r.draw_border_with_background,
            rule.draw_border_with_background,
        ),
        clip_to_geometry: overridden(r.clip_to_geometry, rule.clip_to_geometry),
        baba_is_float: overridden(r.baba_is_float, rule.baba_is_float),
        block_out_from: overridden(r.block_out_from, rule.block_out_from),
        variable_refresh_rate: overridden(r.variable_refresh_rate, rule.variable_refresh_rate),
        tiled_state: overridden(r.tiled_state, rule.tiled_state),
    }
}

/// The rules resolved from `rules`, of which those marked in `applies` apply, in order.
pub open spec fn resolve(rules: Seq<WindowRule>, applies: Seq<bool>) -> ResolvedWindowRules
    decreases rules.len(),
{
    if rules.len() == 0 {
        no_rules()
    } else {
        let prev = resolve(rules.drop_last(), applies.drop_last());
        if applies.last() {
            apply_rule(prev, rules.last())
        } else {
            prev
        }
    }
}

/// Whether a rule applies, from which of its matches and excludes the window meets.
pub open spec fn applies_spec(matches: Seq<bool>, excludes: Seq<bool>) -> bool {
    (matches.len() == 0 || exists|i: int| 0 <= i < matches.len() && #[trigger] matches[i])
        && !(exists|i: int| 0 <= i < excludes.len() && #[trigger] excludes[i])
}

fn any_true(v: &Vec<bool>) -> (r: bool)
    ensures
        r == (exists|i: int| 0 <= i < v@.len() && #[trigger] v@[i]),
{
    let mut i: usize = 0;
    while i < v.len()
        invariant
            i <= v@.len(),
            forall|j: int| 0 <= j < i ==> !#[trigger] v@[j],
        decreases v@.len() - i,
    {
        if v[i] {
            return true;
        }
        i = i + 1;
    }
    false
}

/// Whether a rule applies to a window that meets the matches marked in `matches` and the
/// excludes marked in `excludes`.
pub fn rule_applies(matches: &Vec<bool>, excludes: &Vec<bool>) -> (r: bool)
    ensures
        r == applies_spec(matches@, excludes@),
{
    (matches.len() == 0 || any_true(matches)) && !any_true(excludes)
}

fn override_string(old: Option<String>, new: &Option<String>) -> (r: Option<String>)
    ensures
        r == overridden(old, *new),
{
    match new {
        Some(s) => Some(s.clone()),
        None => old,
    }
}

fn override_copy<T: Copy>(old: Option<T>, new: Option<T>) -> (r: Option<T>)
    ensures
        r == overridden(old, new),
{
    if new.is_some() {
        new
    } else {
        old
    }
}

/// Whether the window meets the condition `m`.
fn window_matches(window: &WindowInfo, m: &Match, is_at_startup: bool) -> (r: bool)
    ensures
        r == window_matches_spec(*window, *m, is_at_startup),
{
    if let Some(at_startup) = m.at_startup {
        if at_startup != is_at_startup {
            return false;
        }
    }
    if let Some(v) = m.is_focused {
        if window.is_focused != v {
            return false;
        }
    }
    if let Some(v) = m.is_urgent {
        if window.is_urgent != v {
            return false;
        }
    }
    if let Some(v) = m.is_active {
        if window.is_pending_activated != v {
            return false;
        }
    }
    if let Some(re) = &m.app_id {
        match &window.app_id {
            Some(app_id) => {
                if !re.is_match(app_id.as_str()) {
                    return false;
                }
            },
            None => return false,
        }
    }
    if let Some(re) = &m.title {
        match &window.title {
            Some(title) => {
                if !re.is_match(title.as_str()) {
                    return false;
                }
            },
            None => return false,
        }
    }
    if let Some(v) = m.is_active_in_column {
        if window.is_active_in_column != v {
            return false;
        }
    }
    if let Some(v) = m.is_floating {
        if window.is_floating != v {
            return false;
        }
    }
    if let Some(v) = m.is_window_cast_target {
        if window.is_window_cast_target != v {
            return false;
        }
    }
    true
}

/// Which conditions of `ms` the window meets.
fn matches_of(window: &WindowInfo, ms: &Vec<Match>, is_at_startup: bool) -> (r: Vec<bool>)
    ensures
        r@.len() == ms@.len(),
        forall|i: int| 0 <= i < r@.len() ==> #[trigger] r@[i] == window_matches_spec(*window, ms@[i], is_at_startup),
{
    let mut r: Vec<bool> = Vec::new();
    let mut i: usize = 0;
    while i < ms.len()
        invariant
            i <= ms@.len(),
            r@.len() == i,
            forall|j: int| 0 <= j < i ==> #[trigger] r@[j] == window_matches_spec(*window, ms@[j], is_at_startup),
        decreases ms@.len() - i,
    {
        let b = window_matches(window, &ms[i], is_at_startup);
        r.push(b);
        i = i + 1;
    }
    r
}

impl ResolvedWindowRules {
    pub fn empty() -> (r: Self)
        ensures
            r == no_rules(),
    {
        ResolvedWindowRules {
            default_column_display: None,
            open_on_output: None,
            open_on_workspace: None,
            open_maximized: None,
            open_fullscreen: None,
            open_floating: None,
            open_focused: None,
            min_width: None,
            min_height: None,
            max_width: None,
            max_height: None,
            draw_border_with_background: None,
            clip_to_geometry: None,
            baba_is_float: None,
            block_out_from: None,
            variable_refresh_rate: None,
            tiled_state: None,
        }
    }

    /// Lets what `rule` sets override these rules.
    pub fn apply(self, rule: &WindowRule) -> (r: Self)
        ensures
            r == apply_rule(self, *rule),
    {
        ResolvedWindowRules {
            default_column_display: override_copy(
                self.default_column_display,
                rule.default_column_display,
            ),
            open_on_output: override_string(self.open_on_output, &rule.open_on_output),
            open_on_workspace: override_string(self.open_on_workspace, &rule.open_on_workspace),
            open_maximized: override_copy(self.open_maximized, rule.open_maximized),
            open_fullscreen: override_copy(self.open_fullscreen, rule.open_fullscreen),
            open_floating: override_copy(self.open_floating, rule.open_floating),
            open_focused: override_copy(self.open_focused, rule.open_focused),
            min_width: override_copy(self.min_width, rule.min_width),
            min_height: override_copy(self.min_height, rule.min_height),
            max_width: override_copy(self.max_width, rule.max_width),
            max_height: override_copy(self.max_height, rule.max_height),
            draw_border_with_background: override_copy(
                self.draw_border_with_background,
                rule.draw_border_with_background,
            ),
            clip_to_geometry: override_copy(self.clip_to_geometry, rule.clip_to_geometry),
            baba_is_float: override_copy(self.baba_is_float, rule.baba_is_float),
            block_out_from: override_copy(self.block_out_from, rule.block_out_from),
            variable_refresh_rate: override_copy(self.variable_refresh_rate, rule.variable_refresh_rate),
            tiled_state: override_copy(self.tiled_state, rule.tiled_state),
        }
    }

    /// The rules resolved from `rules`, of which those marked in `applies` apply: starting
    /// from nothing, each applying rule in order overrides what it sets.
    pub fn compute_from(rules: &Vec<WindowRule>, applies: &Vec<bool>) -> (r: Self)
        requires
            applies@.len() == rules@.len(),
        ensures
            r == resolve(rules@, applies@),
    {
        let mut resolved = Self::empty();
        let mut i: usize = 0;
        while i < rules.len()
            invariant
                applies@.len() == rules@.len(),
                i <= rules@.len(),
                resolved == resolve(rules@.take(i as int), applies@.take(i as int)),
            decreases rules@.len() - i,
        {
            proof {
                assert(rules@.take(i + 1).drop_last() =~= rules@.take(i as int));
                assert(applies@.take(i + 1).drop_last() =~= applies@.take(i as int));
            }
            if applies[i] {
                resolved = resolved.apply(&rules[i]);
            }
            i = i + 1;
        }
        proof {
            assert(rules@.take(rules@.len() as int) =~= rules@);
            assert(applies@.take(applies@.len() as int) =~= applies@);
        }
        resolved
    }

    /// The rules that apply to `window`, resolved in order: a rule applies when the window
    /// meets one of its matches (or it has none) and none of its excludes.
    pub fn compute(rules: &Vec<WindowRule>, window: &WindowInfo, is_at_startup: bool) -> (r: Self)
        ensures
            r == resolve(rules@, applying(rules@, *window, is_at_startup)),
    {
        let mut applies: Vec<bool> = Vec::new();
        let mut i: usize = 0;
        while i < rules.len()
            invariant
                i <= rules@.len(),
                applies@.len() == i,
                forall|k: int|
                    0 <= k < i ==> #[trigger] applies@[k] == rule_applies_spec(
                        *window,
                        rules@[k],
                        is_at_startup,
                    ),
            decreases rules@.len() - i,
        {
            let rule = &rules[i];
            let matched = matches_of(window, &rule.matches, is_at_startup);
            let excluded = matches_of(window, &rule.excludes, is_at_startup);
            let a = rule_applies(&matched, &excluded);
            proof {
                if exists|j: int| 0 <= j < matched@.len() && #[trigger] matched@[j] {
                    let j = choose|j: int| 0 <= j < matched@.len() && #[trigger] matched@[j];
                    assert(window_matches_spec(*window, rule.matches@[j], is_at_startup));
                }
                if exists|j: int|
                    0 <= j < rule.matches@.len() && window_matches_spec(
                        *window,
                        #[trigger] rule.matches@[j],
                        is_at_startup,
                    ) {
                    let j = choose|j: int|
                        0 <= j < rule.matches@.len() && window_matches_spec(
                            *window,
                            #[trigger] rule.matches@[j],
                            is_at_startup,
                        );
                    assert(matched@[j]);
                }
                if exists|j: int| 0 <= j < excluded@.len() && #[trigger] excluded@[j] {
                    let j = choose|j: int| 0 <= j < excluded@.len() && #[trigger] excluded@[j];
                    assert(window_matches_spec(*window, rule.excludes@[j], is_at_startup));
                }
                if exists|j: int|
                    0 <= j < rule.excludes@.len() && window_matches_spec(
                        *window,
                        #[trigger] rule.excludes@[j],
                        is_at_startup,
                    ) {
                    let j = choose|j: int|
                        0 <= j < rule.excludes@.len() && window_matches_spec(
                            *window,
                            #[trigger] rule.excludes@[j],
                            is_at_startup,
                        );
                    assert(excluded@[j]);
                }
                assert(a == rule_applies_spec(*window, *rule, is_at_startup));
            }
            applies.push(a);
            i = i + 1;
        }
        proof {
            assert(applies@ =~= applying(rules@, *window, is_at_startup));
        }
        Self::compute_from(rules, &applies)
    }

    /// The surface's minimum size raised to the rules' minimum width and height.
    pub fn apply_min_size(&self, min_size: Size) -> (r: Size)
        ensures
            r.w == (match self.min_width {
                Some(x) => if (x as i32) > min_size.w { x as i32 } else { min_size.w },
                None => min_size.w,
            }),
            r.h == (match self.min_height {
                Some(x) => if (x as i32) > min_size.h { x as i32 } else { min_size.h },
                None => min_size.h,
            }),
    {
        let mut size = min_size;
        if let Some(x) = self.min_width {
            if x as i32 > size.w {
                size.w = x as i32;
            }
        }
        if let Some(x) = self.min_height {
            if x as i32 > size.h {
                size.h = x as i32;
            }
        }
        size
    }

    /// The surface's maximum size (zero: unbounded) lowered to the rules' maximum width and
    /// height; a rule's zero leaves the surface's bound.
    pub fn apply_max_size(&self, max_size: Size) -> (r: Size)
        ensures
            r.w == (match self.max_width {
                Some(x) => if max_size.w == 0 {
                    x as i32
                } else if x > 0 && (x as i32) < max_size.w {
                    x as i32
                } else {
                    max_size.w
                },
                None => max_size.w,
            }),
            r.h == (match self.max_height {
                Some(x) => if max_size.h == 0 {
                    x as i32
                } else if x > 0 && (x as i32) < max_size.h {
                    x as i32
                } else {
                    max_size.h
                },
                None => max_size.h,
            }),
    {
        let mut size = max_size;
        if let Some(x) = self.max_width {
            if size.w == 0 {
                size.w = x as i32;
            } else if x > 0 && (x as i32) < size.w {
                size.w = x as i32;
            }
        }
        if let Some(x) = self.max_height {
            if size.h == 0 {
                size.h = x as i32;
            } else if x > 0 && (x as i32) < size.h {
                size.h = x as i32;
            }
        }
        size
    }

    pub fn apply_min_max_size(&self, min_size: Size, max_size: Size) -> (r: (Size, Size))
        ensures
            r.0 == self.apply_min_size_spec(min_size),
            r.1 == self.apply_max_size_spec(max_size),
    {
        (self.apply_min_size(min_size), self.apply_max_size(max_size))
    }

    pub open spec fn apply_min_size_spec(&self, min_size: Size) -> Size {
        Size {
            w: match self.min_width {
                Some(x) => if (x as i32) > min_size.w { x as i32 } else { min_size.w },
                None => min_size.w,
            },
            h: match self.min_height {
                Some(x) => if (x as i32) > min_size.h { x as i32 } else { min_size.h },
                None => min_size.h,
            },
        }
    }

    pub open spec fn apply_max_size_spec(&self, max_size: Size) -> Size {
        Size {
            w: match self.max_width {
                Some(x) => if max_size.w == 0 {
                    x as i32
                } else if x > 0 && (x as i32) < max_size.w {
                    x as i32
                } else {
                    max_size.w
                },
                None => max_size.w,
            },
            h: match self.max_height {
                Some(x) => if max_size.h == 0 {
                    x as i32
                } else if x > 0 && (x as i32) < max_size.h {
                    x as i32
                } else {
                    max_size.h
                },
                None => max_size.h,
            },
        }
    }

    /// Whether a new window opens floating: as the rules say; else when it has a parent (a
    /// dialog); else when its height is fixed (its minimum and maximum heights, with the
    /// rules applied, are one positive value).
    pub fn compute_open_floating(&self, has_parent: bool, min_size: Size, max_size: Size) -> (r: bool)
        ensures
            r == (match self.open_floating {
                Some(v) => v,
                None => has_parent || (self.apply_min_size_spec(min_size).h > 0
                    && self.apply_min_size_spec(min_size).h == self.apply_max_size_spec(max_size).h),
            }),
    {
        if let Some(v) = self.open_floating {
            return v;
        }
        if has_parent {
            return true;
        }
        let (min_size, max_size) = self.apply_min_max_size(min_size, max_size);
        min_size.h > 0 && min_size.h == max_size.h
    }
}

} // verus!

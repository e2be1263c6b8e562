//! Properties that hold across the library's operations.
use vstd::prelude::*;

use crate::footer::{global_hints, page_hints};
use crate::hotkeys::{centered, centering_fits, Rect};
use crate::input::{
    clamped_volume, key_route, page_of_function_key, typing_text, KeyAction, KeyCode, KeyContext,
    KeyEvent, KeyEventKind, MOD_CONTROL, MOD_NONE, MOD_SHIFT, VOLUME_MAX, VOLUME_MIN,
};
use crate::layout::{click_outcome, BrowseAreas, BrowseClick};
use crate::models::{opt_text, Album, Child};
use crate::state::{
    album_matches, clamp_cava_size, filtered_albums, filtered_songs, next_index, page_index,
    page_shortcut, prev_index, select_down, select_up, song_matches, BrowseState, BrowseTab, Page,
};
use crate::text::{contains_text, decimal, lowercase, occurs_at};

verus! {

broadcast use vstd::string::group_string_axioms;

/// Every page has its own position in the tab bar, and the positions are
/// 0 through 6.
pub proof fn lemma_page_index_distinct(p: Page, q: Page)
    ensures
        page_index(p) < 7,
        page_index(p) == page_index(q) ==> p == q,
{
}

/// The shortcut shown for a page is "F" followed by its position counted
/// from 1.
pub proof fn lemma_shortcut_is_function_key(p: Page)
    ensures
        page_shortcut(p) == seq!['F'] + decimal((page_index(p) + 1) as nat),
{
    reveal_strlit("F1");
    reveal_strlit("F2");
    reveal_strlit("F3");
    reveal_strlit("F4");
    reveal_strlit("F5");
    reveal_strlit("F6");
    reveal_strlit("F7");
    assert(page_shortcut(p) =~= seq!['F'] + decimal((page_index(p) + 1) as nat));
}

/// Outside a text field, the function key of a page's shortcut opens that
/// page.
pub proof fn lemma_function_key_opens_page(ctx: KeyContext, p: Page, modifiers: u8)
    requires
        !ctx.show_hotkeys,
        !(ctx.page == Page::Artists && ctx.artists_filter_active),
        !(ctx.page == Page::Browse && ctx.browse_filter_active),
    ensures
        key_route(
            ctx,
            KeyEvent {
                code: KeyCode::F((page_index(p) + 1) as u8),
                modifiers,
                kind: KeyEventKind::Press,
            },
        ) == KeyAction::SwitchPage(p),
{
    assert(page_of_function_key((page_index(p) + 1) as u8) == Some(p));
}

/// While the hotkey menu is open, a key can only close it, quit, or do
/// nothing.
pub proof fn lemma_hotkey_menu_blocks_other_keys(ctx: KeyContext, key: KeyEvent)
    requires
        ctx.show_hotkeys,
    ensures
        key_route(ctx, key) == KeyAction::CloseHotkeys || key_route(ctx, key) == KeyAction::Quit
            || key_route(ctx, key) == KeyAction::Ignore,
        key_route(ctx, key) == KeyAction::CloseHotkeys <==> (key.code == KeyCode::Esc || (key.code
            == KeyCode::Char('?') && (key.modifiers == MOD_NONE || key.modifiers == MOD_SHIFT))),
{
}

/// Keys typed into a text field (or an active filter) reach the page and are
/// not taken by the application-wide bindings, unless the hotkey menu is open.
pub proof fn lemma_text_entry_keeps_keys(ctx: KeyContext, key: KeyEvent)
    requires
        !ctx.show_hotkeys,
        typing_text(ctx, key),
    ensures
        key_route(ctx, key) == KeyAction::PageKeys(ctx.page),
{
}

/// Outside a text field, `?` opens the hotkey menu, and `?` or Esc closes it.
pub proof fn lemma_question_mark_toggles_menu(ctx: KeyContext, modifiers: u8)
    requires
        !(ctx.page == Page::Server && ctx.server_field <= 2),
        !(ctx.page == Page::Artists && ctx.artists_filter_active),
        !(ctx.page == Page::Browse && ctx.browse_filter_active),
        modifiers == MOD_NONE || modifiers == MOD_SHIFT,
    ensures
        !ctx.show_hotkeys ==> key_route(
            ctx,
            KeyEvent { code: KeyCode::Char('?'), modifiers, kind: KeyEventKind::Press },
        ) == KeyAction::ToggleHotkeys,
        ctx.show_hotkeys ==> key_route(
            ctx,
            KeyEvent { code: KeyCode::Char('?'), modifiers, kind: KeyEventKind::Press },
        ) == KeyAction::CloseHotkeys,
        ctx.show_hotkeys ==> key_route(
            ctx,
            KeyEvent { code: KeyCode::Esc, modifiers, kind: KeyEventKind::Press },
        ) == KeyAction::CloseHotkeys,
{
}

/// Outside a text field and the hotkey menu, `-` lowers the volume by 2% and
/// `+` or `=` raises it by 2%.
pub proof fn lemma_volume_keys(ctx: KeyContext)
    requires
        !ctx.show_hotkeys,
        !(ctx.page == Page::Server && ctx.server_field <= 2),
        !(ctx.page == Page::Artists && ctx.artists_filter_active),
        !(ctx.page == Page::Browse && ctx.browse_filter_active),
    ensures
        key_route(
            ctx,
            KeyEvent { code: KeyCode::Char('-'), modifiers: MOD_NONE, kind: KeyEventKind::Press },
        ) == KeyAction::AdjustVolume(-2i32),
        key_route(
            ctx,
            KeyEvent { code: KeyCode::Char('+'), modifiers: MOD_NONE, kind: KeyEventKind::Press },
        ) == KeyAction::AdjustVolume(2i32),
        key_route(
            ctx,
            KeyEvent { code: KeyCode::Char('+'), modifiers: MOD_SHIFT, kind: KeyEventKind::Press },
        ) == KeyAction::AdjustVolume(2i32),
        key_route(
            ctx,
            KeyEvent { code: KeyCode::Char('='), modifiers: MOD_NONE, kind: KeyEventKind::Press },
        ) == KeyAction::AdjustVolume(2i32),
{
}

/// A volume step never leaves 0..=100 percent.
pub proof fn lemma_volume_stays_in_range(v: int)
    ensures
        VOLUME_MIN <= clamped_volume(v) <= VOLUME_MAX,
        VOLUME_MIN <= v <= VOLUME_MAX ==> clamped_volume(v) == v,
{
}

/// Raising the volume by a step and lowering it by a step gives back the
/// volume, away from the top of the range; and the other way round away from
/// the bottom.
pub proof fn lemma_volume_steps_cancel(v: int, step: int)
    requires
        0 <= step,
    ensures
        VOLUME_MIN <= v && v + step <= VOLUME_MAX ==> clamped_volume(
            clamped_volume(v + step) - step,
        ) == v,
        VOLUME_MIN <= v - step && v <= VOLUME_MAX ==> clamped_volume(
            clamped_volume(v - step) + step,
        ) == v,
{
}

/// A selection that is in the list stays in the list when moved up or down;
/// only an empty list has no selection.
pub proof fn lemma_selection_stays_in_list(selected: Option<usize>, len: nat)
    requires
        selected matches Some(s) ==> s < len,
    ensures
        select_up(selected, len) is None <==> len == 0,
        select_down(selected, len) is None <==> len == 0,
        select_up(selected, len) matches Some(s) ==> s < len,
        select_down(selected, len) matches Some(s) ==> s < len,
{
}

/// Moving down then up returns to the row one started from, unless it was the
/// last row; moving up then down, unless it was the first.
pub proof fn lemma_selection_moves_undo(s: usize, len: nat)
    requires
        s < len,
        len <= usize::MAX,
    ensures
        s + 1 < len ==> select_up(select_down(Some(s), len), len) == Some(s),
        s > 0 ==> select_down(select_up(Some(s), len), len) == Some(s),
{
}

/// Cycling to the next theme and back to the previous one (or the other way
/// round) returns to the theme one started from.
pub proof fn lemma_theme_cycle_undo(i: int, n: int)
    requires
        0 <= i < n,
    ensures
        0 <= next_index(i, n) < n,
        0 <= prev_index(i, n) < n,
        prev_index(next_index(i, n), n) == i,
        next_index(prev_index(i, n), n) == i,
{
    if i + 1 < n {
        assert(next_index(i, n) == i + 1) by (nonlinear_arith)
            requires
                0 <= i,
                i + 1 < n,
        ;
        assert(prev_index(i + 1, n) == i) by (nonlinear_arith)
            requires
                0 <= i,
                i + 1 < n,
        ;
    } else {
        assert(next_index(i, n) == 0) by (nonlinear_arith)
            requires
                i + 1 == n,
                n > 0,
        ;
        assert(prev_index(0, n) == n - 1) by (nonlinear_arith)
            requires
                n > 0,
        ;
    }
    if i > 0 {
        assert(prev_index(i, n) == i - 1) by (nonlinear_arith)
            requires
                0 < i < n,
        ;
        assert(next_index(i - 1, n) == i) by (nonlinear_arith)
            requires
                0 < i < n,
        ;
    } else {
        assert(prev_index(0, n) == n - 1) by (nonlinear_arith)
            requires
                n > 0,
        ;
        assert(next_index(n - 1, n) == 0) by (nonlinear_arith)
            requires
                n > 0,
        ;
    }
}

/// The visualizer height taken from the configuration lies within 10..=80
/// percent, and a height already in that range is kept.
pub proof fn lemma_cava_size_in_range(size: u8)
    ensures
        10 <= clamp_cava_size(size) <= 80,
        10 <= size <= 80 ==> clamp_cava_size(size) == size,
{
}

/// Every song shown under a filter matches it and comes from the unfiltered
/// list, and every song of the unfiltered list that matches is shown.
pub proof fn lemma_filter_shows_exactly_matches(backing: Seq<Child>, filter: Seq<char>, s: Child)
    requires
        filter.len() > 0,
    ensures
        filtered_songs(backing, filter).contains(s) <==> (backing.contains(s) && song_matches(
            s,
            lowercase(filter),
        )),
        filtered_songs(backing, filter).len() <= backing.len(),
{
    let pred = |c: Child| song_matches(c, lowercase(filter));
    broadcast use vstd::seq_lib::group_filter_ensures;

    if backing.contains(s) && song_matches(s, lowercase(filter)) {
        let i = choose|i: int| 0 <= i < backing.len() && backing[i] == s;
        backing.lemma_filter_contains(pred, i);
    }
    if filtered_songs(backing, filter).contains(s) {
        backing.lemma_filter_contains_rev(pred, s);
    }
}

/// Every footer shows the volume and help hints, whatever the page.
pub proof fn lemma_footer_has_global_hints(page: Page)
    ensures
        (global_hints() + page_hints(page)).contains(("-/+", "Volume")),
        (global_hints() + page_hints(page)).contains(("?", "Help")),
{
    assert((global_hints() + page_hints(page))[4] == ("-/+", "Volume"));
    assert((global_hints() + page_hints(page))[5] == ("?", "Help"));
}

/// Text that contains `middle`, where `middle` contains `inner`, contains
/// `inner`.
proof fn lemma_contains_text_transitive(outer: Seq<char>, middle: Seq<char>, inner: Seq<char>)
    requires
        contains_text(outer, middle),
        contains_text(middle, inner),
    ensures
        contains_text(outer, inner),
{
    let i = choose|i: int| occurs_at(outer, middle, i);
    let j = choose|j: int| occurs_at(middle, inner, j);
    assert(outer.subrange(i + j, i + j + inner.len()) =~= middle.subrange(j, j + inner.len()));
    assert(occurs_at(outer, inner, i + j));
}

/// Keeping, out of what `p` keeps, what `q` keeps is keeping what `q` keeps,
/// when everything `q` keeps `p` keeps too.
proof fn lemma_filter_of_filter<A>(b: Seq<A>, p: spec_fn(A) -> bool, q: spec_fn(A) -> bool)
    requires
        forall|x: A| #[trigger] q(x) ==> p(x),
    ensures
        b.filter(q) == b.filter(p).filter(q),
    decreases b.len(),
{
    reveal(Seq::filter);
    if b.len() > 0 {
        lemma_filter_of_filter(b.drop_last(), p, q);
        let rest = b.drop_last().filter(p);
        assert(rest.push(b.last()).drop_last() =~= rest);
    }
}

/// Keeping what `p` keeps, when `p` keeps everything, keeps the sequence.
proof fn lemma_filter_keeps_all<A>(b: Seq<A>, p: spec_fn(A) -> bool)
    requires
        forall|x: A| #[trigger] p(x),
    ensures
        b.filter(p) == b,
    decreases b.len(),
{
    reveal(Seq::filter);
    if b.len() > 0 {
        lemma_filter_keeps_all(b.drop_last(), p);
        assert(b.drop_last().push(b.last()) =~= b);
    }
}

/// Every text contains the empty text, and only the empty text lies in the
/// empty text.
proof fn lemma_empty_text(hay: Seq<char>, needle: Seq<char>)
    ensures
        needle.len() == 0 ==> contains_text(hay, needle),
        contains_text(Seq::<char>::empty(), needle) ==> needle.len() == 0,
{
    if needle.len() == 0 {
        assert(hay.subrange(0, 0) =~= needle);
        assert(occurs_at(hay, needle, 0));
    }
}

/// Narrowing the filter (the new text, lowercased, contains the old one,
/// lowercased) never adds a song: the songs shown under the narrower filter
/// are those shown under the old one that also match the new text, in the
/// same order. This holds for every pair of filters, given that the empty
/// text lowercases to the empty text (as `str::to_lowercase` does).
pub proof fn lemma_narrower_filter_keeps_fewer_songs(
    backing: Seq<Child>,
    old_filter: Seq<char>,
    new_filter: Seq<char>,
)
    requires
        new_filter.len() == 0 ==> lowercase(new_filter).len() == 0,
        contains_text(lowercase(new_filter), lowercase(old_filter)),
    ensures
        filtered_songs(backing, new_filter) == filtered_songs(backing, old_filter).filter(
            |s: Child| song_matches(s, lowercase(new_filter)),
        ),
        forall|s: Child| #[trigger]
            filtered_songs(backing, new_filter).contains(s) ==> filtered_songs(
                backing,
                old_filter,
            ).contains(s),
{
    let q = |s: Child| song_matches(s, lowercase(new_filter));
    if new_filter.len() == 0 {
        assert(lowercase(new_filter) =~= Seq::<char>::empty());
        lemma_empty_text(lowercase(new_filter), lowercase(old_filter));
        let p = |s: Child| song_matches(s, lowercase(old_filter));
        assert forall|x: Child| #[trigger] q(x) by {
            lemma_empty_text(lowercase(x.title@), lowercase(new_filter));
        }
        assert forall|x: Child| #[trigger] p(x) by {
            lemma_empty_text(lowercase(x.title@), lowercase(old_filter));
        }
        lemma_filter_keeps_all(backing, q);
        lemma_filter_keeps_all(backing, p);
    } else if old_filter.len() > 0 {
        let p = |s: Child| song_matches(s, lowercase(old_filter));
        assert forall|x: Child| #[trigger] q(x) implies p(x) by {
            if contains_text(lowercase(x.title@), lowercase(new_filter)) {
                lemma_contains_text_transitive(
                    lowercase(x.title@),
                    lowercase(new_filter),
                    lowercase(old_filter),
                );
            } else if contains_text(lowercase(opt_text(x.artist)), lowercase(new_filter)) {
                lemma_contains_text_transitive(
                    lowercase(opt_text(x.artist)),
                    lowercase(new_filter),
                    lowercase(old_filter),
                );
            } else {
                lemma_contains_text_transitive(
                    lowercase(opt_text(x.album)),
                    lowercase(new_filter),
                    lowercase(old_filter),
                );
            }
        }
        lemma_filter_of_filter(backing, p, q);
    }
    assert forall|s: Child| #[trigger]
        filtered_songs(backing, new_filter).contains(s) implies filtered_songs(
        backing,
        old_filter,
    ).contains(s) by {
        filtered_songs(backing, old_filter).lemma_filter_contains_rev(q, s);
    }
}

/// Narrowing the filter never adds an album: the albums shown under the
/// narrower filter are those shown under the old one that also match the new
/// text, in the same order. This holds for every pair of filters, given that
/// the empty text lowercases to the empty text (as `str::to_lowercase` does).
pub proof fn lemma_narrower_filter_keeps_fewer_albums(
    backing: Seq<Album>,
    old_filter: Seq<char>,
    new_filter: Seq<char>,
)
    requires
        new_filter.len() == 0 ==> lowercase(new_filter).len() == 0,
        contains_text(lowercase(new_filter), lowercase(old_filter)),
    ensures
        filtered_albums(backing, new_filter) == filtered_albums(backing, old_filter).filter(
            |a: Album| album_matches(a, lowercase(new_filter)),
        ),
        forall|a: Album| #[trigger]
            filtered_albums(backing, new_filter).contains(a) ==> filtered_albums(
                backing,
                old_filter,
            ).contains(a),
{
    let q = |a: Album| album_matches(a, lowercase(new_filter));
    if new_filter.len() == 0 {
        assert(lowercase(new_filter) =~= Seq::<char>::empty());
        lemma_empty_text(lowercase(new_filter), lowercase(old_filter));
        let p = |a: Album| album_matches(a, lowercase(old_filter));
        assert forall|x: Album| #[trigger] q(x) by {
            lemma_empty_text(lowercase(x.name@), lowercase(new_filter));
        }
        assert forall|x: Album| #[trigger] p(x) by {
            lemma_empty_text(lowercase(x.name@), lowercase(old_filter));
        }
        lemma_filter_keeps_all(backing, q);
        lemma_filter_keeps_all(backing, p);
    } else if old_filter.len() > 0 {
        let p = |a: Album| album_matches(a, lowercase(old_filter));
        assert forall|x: Album| #[trigger] q(x) implies p(x) by {
            if contains_text(lowercase(x.name@), lowercase(new_filter)) {
                lemma_contains_text_transitive(
                    lowercase(x.name@),
                    lowercase(new_filter),
                    lowercase(old_filter),
                );
            } else {
                lemma_contains_text_transitive(
                    lowercase(opt_text(x.artist)),
                    lowercase(new_filter),
                    lowercase(old_filter),
                );
            }
        }
        lemma_filter_of_filter(backing, p, q);
    }
    assert forall|a: Album| #[trigger]
        filtered_albums(backing, new_filter).contains(a) implies filtered_albums(
        backing,
        old_filter,
    ).contains(a) by {
        filtered_albums(backing, old_filter).lemma_filter_contains_rev(q, a);
    }
}

/// Outside a text field and the hotkey menu, the application-wide keys do
/// the same on every page: `q` quits, `p` pauses or resumes, `l` skips to the
/// next track, `h` goes back to the previous one, `t` cycles the theme,
/// Ctrl+R refreshes, and Space pauses or resumes everywhere but on the Radio
/// page, where it goes to the station list.
pub proof fn lemma_global_keys_on_every_page(ctx: KeyContext)
    requires
        !ctx.show_hotkeys,
        !(ctx.page == Page::Server && ctx.server_field <= 2),
        !(ctx.page == Page::Artists && ctx.artists_filter_active),
        !(ctx.page == Page::Browse && ctx.browse_filter_active),
    ensures
        key_route(
            ctx,
            KeyEvent { code: KeyCode::Char('q'), modifiers: MOD_NONE, kind: KeyEventKind::Press },
        ) == KeyAction::Quit,
        key_route(
            ctx,
            KeyEvent { code: KeyCode::Char('p'), modifiers: MOD_NONE, kind: KeyEventKind::Press },
        ) == KeyAction::TogglePause,
        key_route(
            ctx,
            KeyEvent { code: KeyCode::Char('l'), modifiers: MOD_NONE, kind: KeyEventKind::Press },
        ) == KeyAction::NextTrack,
        key_route(
            ctx,
            KeyEvent { code: KeyCode::Char('h'), modifiers: MOD_NONE, kind: KeyEventKind::Press },
        ) == KeyAction::PrevTrack,
        key_route(
            ctx,
            KeyEvent { code: KeyCode::Char('t'), modifiers: MOD_NONE, kind: KeyEventKind::Press },
        ) == KeyAction::CycleTheme,
        key_route(
            ctx,
            KeyEvent {
                code: KeyCode::Char('r'),
                modifiers: MOD_CONTROL,
                kind: KeyEventKind::Press,
            },
        ) == KeyAction::Refresh,
        key_route(
            ctx,
            KeyEvent { code: KeyCode::Char(' '), modifiers: MOD_NONE, kind: KeyEventKind::Press },
        ) == (if ctx.page == Page::Radio {
            KeyAction::PageKeys(Page::Radio)
        } else {
            KeyAction::TogglePause
        }),
{
}

/// Under a non-empty filter, a song is shown exactly when its title, its
/// artist or its album, lowercased, contains the lowercased filter: each of
/// the three fields finds it on its own, whatever the other two hold.
pub proof fn lemma_song_filter_searches_each_field(
    backing: Seq<Child>,
    filter: Seq<char>,
    i: int,
)
    requires
        filter.len() > 0,
        0 <= i < backing.len(),
    ensures
        contains_text(lowercase(backing[i].title@), lowercase(filter)) ==> filtered_songs(
            backing,
            filter,
        ).contains(backing[i]),
        contains_text(lowercase(opt_text(backing[i].artist)), lowercase(filter))
            ==> filtered_songs(backing, filter).contains(backing[i]),
        contains_text(lowercase(opt_text(backing[i].album)), lowercase(filter))
            ==> filtered_songs(backing, filter).contains(backing[i]),
        filtered_songs(backing, filter).contains(backing[i]) ==> {
            ||| contains_text(lowercase(backing[i].title@), lowercase(filter))
            ||| contains_text(lowercase(opt_text(backing[i].artist)), lowercase(filter))
            ||| contains_text(lowercase(opt_text(backing[i].album)), lowercase(filter))
        },
{
    let pred = |c: Child| song_matches(c, lowercase(filter));
    if pred(backing[i]) {
        backing.lemma_filter_contains(pred, i);
    }
    if backing.filter(pred).contains(backing[i]) {
        let j = choose|j: int| 0 <= j < backing.filter(pred).len() && backing.filter(pred)[j]
            == backing[i];
        backing.lemma_filter_pred(pred, j);
    }
}

/// Under a non-empty filter, an album is shown exactly when its name or its
/// artist, lowercased, contains the lowercased filter; each field finds it on
/// its own.
pub proof fn lemma_album_filter_searches_each_field(
    backing: Seq<Album>,
    filter: Seq<char>,
    i: int,
)
    requires
        filter.len() > 0,
        0 <= i < backing.len(),
    ensures
        contains_text(lowercase(backing[i].name@), lowercase(filter)) ==> filtered_albums(
            backing,
            filter,
        ).contains(backing[i]),
        contains_text(lowercase(opt_text(backing[i].artist)), lowercase(filter))
            ==> filtered_albums(backing, filter).contains(backing[i]),
        filtered_albums(backing, filter).contains(backing[i]) ==> {
            ||| contains_text(lowercase(backing[i].name@), lowercase(filter))
            ||| contains_text(lowercase(opt_text(backing[i].artist)), lowercase(filter))
        },
{
    let pred = |a: Album| album_matches(a, lowercase(filter));
    if pred(backing[i]) {
        backing.lemma_filter_contains(pred, i);
    }
    if backing.filter(pred).contains(backing[i]) {
        let j = choose|j: int| 0 <= j < backing.filter(pred).len() && backing.filter(pred)[j]
            == backing[i];
        backing.lemma_filter_pred(pred, j);
    }
}

/// The hotkey menu takes the whole width of the screen up to 90 columns and
/// the whole height up to 28 rows, and is centred: the space left on either
/// side differs by at most one cell, the extra cell going right (and below).
pub proof fn lemma_hotkey_menu_size_and_centre(area: Rect)
    requires
        centering_fits(area),
    ensures
        centered(area).width == (if area.width < 90 { area.width } else { 90 }),
        centered(area).height == (if area.height < 28 { area.height } else { 28 }),
        centered(area).x >= area.x,
        centered(area).y >= area.y,
        centered(area).x - area.x <= (area.x + area.width) - (centered(area).x + centered(
            area,
        ).width) <= centered(area).x - area.x + 1,
        centered(area).y - area.y <= (area.y + area.height) - (centered(area).y + centered(
            area,
        ).height) <= centered(area).y - area.y + 1,
{
}

/// A click on the list, `k` rows below its top border, selects the item `k`
/// places after the first one shown (the scroll offset), when there is such an
/// item: it focuses the list and, when that item was already selected and the
/// click repeats the previous one, plays it; the list itself and its scroll
/// position stay. A click past the last item changes nothing.
pub proof fn lemma_list_click_selects_scrolled_row(
    s: BrowseState,
    areas: BrowseAreas,
    y: u16,
    tab_hit: Option<BrowseTab>,
    repeat: bool,
    t: BrowseState,
    r: BrowseClick,
)
    requires
        click_outcome(s, areas, y, tab_hit, repeat, t, r),
        !(areas.tabs.y <= y < areas.tabs.y + areas.tabs.height),
        !(areas.options.y <= y < areas.options.y + areas.options.height),
        !(areas.search.y <= y < areas.search.y + areas.search.height),
        areas.list.y < y < areas.list.y + areas.list.height,
    ensures
        s.browse_tab == BrowseTab::Songs ==> {
            let item = s.scroll_offset + (y - areas.list.y - 1);
            if item < s.songs@.len() {
                &&& t.selected_index == Some(item as usize)
                &&& t.focus == 1
                &&& t.scroll_offset == s.scroll_offset
                &&& t.songs == s.songs
                &&& t.selected_album == s.selected_album
                &&& (r == BrowseClick::PlaySongs(item as usize) <==> (repeat && s.selected_index
                    == Some(item as usize)))
                &&& (r != BrowseClick::PlaySongs(item as usize) ==> r == BrowseClick::Nothing)
            } else {
                t == s && r == BrowseClick::Nothing
            }
        },
        s.browse_tab == BrowseTab::Albums ==> {
            let item = s.album_scroll_offset + (y - areas.list.y - 1);
            if item < s.albums@.len() {
                &&& t.selected_album == Some(item as usize)
                &&& t.focus == 1
                &&& t.album_scroll_offset == s.album_scroll_offset
                &&& t.albums == s.albums
                &&& t.selected_index == s.selected_index
                &&& (r == BrowseClick::PlayAlbum(item as usize) <==> (repeat && s.selected_album
                    == Some(item as usize)))
                &&& (r != BrowseClick::PlayAlbum(item as usize) ==> r == BrowseClick::Nothing)
            } else {
                t == s && r == BrowseClick::Nothing
            }
        },
{
}

} // verus!

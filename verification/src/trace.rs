//! What holds of an enumeration over whole sequences of replies.
//!
//! The enumeration itself is stated one reply at a time. Here it is run over
//! any sequence of replies, and the facts that concern more than one reply are
//! proved: which menu items a control ends up with, what every description
//! collected looks like, and what the driver's order becomes.

use crate::control::{ControlReportView, DescriptionView, MenuItemView};
use crate::enumerate::{next_index, EnumerationView, StageView};
use crate::error::{Error, ErrorKind, OsError};
use crate::request::{advance, Request};
use vstd::arithmetic::div_mod::{lemma_fundamental_div_mod, lemma_mod_bound};
use vstd::prelude::*;

verus! {

/// A reply of the driver, to either kind of query.
pub enum ReplyView {
    /// The reply to a query for the next control.
    Control(Result<ControlReportView, OsError>),
    /// The reply to a query for a menu item.
    MenuItem(Result<MenuItemView, OsError>),
}

/// The enumeration after one reply.
pub open spec fn after(s: EnumerationView, reply: ReplyView) -> EnumerationView {
    match reply {
        ReplyView::Control(r) => s.after_control(r),
        ReplyView::MenuItem(r) => s.after_menu_item(r),
    }
}

/// The enumeration after a sequence of replies, taken in order.
pub open spec fn run(s: EnumerationView, replies: Seq<ReplyView>) -> EnumerationView
    decreases replies.len(),
{
    if replies.len() == 0 {
        s
    } else {
        after(run(s, replies.drop_last()), replies.last())
    }
}

/// The enumeration after a sequence of replies to queries for menu items.
pub open spec fn run_menu(
    s: EnumerationView,
    replies: Seq<Result<MenuItemView, OsError>>,
) -> EnumerationView
    decreases replies.len(),
{
    if replies.len() == 0 {
        s
    } else {
        run_menu(s, replies.drop_last()).after_menu_item(replies.last())
    }
}

/// The number of indices that are asked for in the menu of a control: those
/// from the minimum up to the maximum, one step apart. A step that is not
/// positive reaches no index but the minimum.
pub open spec fn candidate_count(report: ControlReportView) -> nat {
    if report.minimum > report.maximum {
        0
    } else if report.step > 0 {
        ((report.maximum - report.minimum) / (report.step as int) + 1) as nat
    } else {
        1
    }
}

/// The index that is asked for in place `k`, counted from zero.
pub open spec fn candidate(report: ControlReportView, k: int) -> i32 {
    (report.minimum + k * report.step) as i32
}

/// The places of the replies that describe an item, in ascending order.
pub open spec fn ok_positions(replies: Seq<Result<MenuItemView, OsError>>) -> Seq<int>
    decreases replies.len(),
{
    if replies.len() == 0 {
        Seq::empty()
    } else {
        let before = ok_positions(replies.drop_last());
        if replies.last() is Ok {
            before.push(replies.len() - 1)
        } else {
            before
        }
    }
}

/// The menu items that are kept when the indices of a control's menu are
/// answered by `replies`, place by place: each item that the driver
/// described, under the index it was asked for.
pub open spec fn kept_items(
    report: ControlReportView,
    replies: Seq<Result<MenuItemView, OsError>>,
) -> Seq<(u32, MenuItemView)> {
    ok_positions(replies).map_values(
        |k: int| (candidate(report, k) as u32, replies[k]->Ok_0),
    )
}

proof fn lemma_quotient(x: int, d: int)
    requires
        0 <= x,
        0 < d,
    ensures
        0 <= x / d,
        (x / d) * d <= x < (x / d + 1) * d,
{
    lemma_fundamental_div_mod(x, d);
    lemma_mod_bound(x, d);
    let q = x / d;
    assert(x == d * q + x % d);
    assert(q * d == d * q) by (nonlinear_arith);
    assert((q + 1) * d == d * q + d) by (nonlinear_arith);
    assert(0 <= q) by (nonlinear_arith)
        requires
            0 <= x,
            0 < d,
            x < (q + 1) * d,
    ;
}

/// Every place below the number of candidates holds an index between the
/// minimum and the maximum; the place after it is reached by one more step
/// exactly when it is below that number too.
proof fn lemma_candidates(report: ControlReportView, k: int)
    requires
        0 <= k < candidate_count(report),
    ensures
        report.minimum <= report.minimum + k * report.step <= report.maximum,
        candidate(report, k) == report.minimum + k * report.step,
        k + 1 < candidate_count(report) ==> next_index(report, candidate(report, k)) == Some(
            candidate(report, k + 1),
        ),
        k + 1 == candidate_count(report) ==> next_index(report, candidate(report, k)) is None,
{
    let min = report.minimum as int;
    let max = report.maximum as int;
    let step = report.step as int;
    if step > 0 {
        lemma_quotient(max - min, step);
        let q = (max - min) / step;
        assert(k <= q);
        assert(k * step <= q * step) by (nonlinear_arith)
            requires
                0 <= k <= q,
                0 < step,
        ;
        assert(0 <= k * step) by (nonlinear_arith)
            requires
                0 <= k,
                0 < step,
        ;
        assert((k + 1) * step == k * step + step) by (nonlinear_arith);
        if k + 1 <= q {
            assert((k + 1) * step <= q * step) by (nonlinear_arith)
                requires
                    0 <= k + 1 <= q,
                    0 < step,
            ;
        } else {
            assert(k == q);
        }
    } else {
        assert(k == 0);
        assert(k * step == 0) by (nonlinear_arith)
            requires
                k == 0,
        ;
    }
}

proof fn lemma_ok_positions(replies: Seq<Result<MenuItemView, OsError>>)
    ensures
        forall|j: int|
            0 <= j < ok_positions(replies).len() ==> 0 <= (#[trigger] ok_positions(replies)[j])
                < replies.len() && replies[ok_positions(replies)[j]] is Ok,
        forall|j: int, k: int|
            0 <= j < k < ok_positions(replies).len() ==> (#[trigger] ok_positions(replies)[j]) < (
            #[trigger] ok_positions(replies)[k]),
        forall|i: int|
            0 <= i < replies.len() && (#[trigger] replies[i]) is Ok ==> ok_positions(
                replies,
            ).contains(i),
    decreases replies.len(),
{
    if replies.len() > 0 {
        let front = replies.drop_last();
        lemma_ok_positions(front);
        let before = ok_positions(front);
        let all = ok_positions(replies);
        assert forall|i: int| 0 <= i < replies.len() && (#[trigger] replies[i]) is Ok implies all.contains(
            i,
        ) by {
            if i < front.len() {
                assert(front[i] is Ok);
                let j = choose|j: int| 0 <= j < before.len() && before[j] == i;
                assert(all[j] == i);
            } else {
                assert(all[all.len() - 1] == i);
            }
        }
    }
}

/// One more reply adds its item to those kept, if it describes one, and
/// leaves them as they are, if it does not.
proof fn lemma_kept_items_step(
    report: ControlReportView,
    replies: Seq<Result<MenuItemView, OsError>>,
)
    requires
        replies.len() > 0,
    ensures
        kept_items(report, replies) == (match replies.last() {
            Ok(item) => kept_items(report, replies.drop_last()).push(
                (candidate(report, replies.len() - 1) as u32, item),
            ),
            Err(_) => kept_items(report, replies.drop_last()),
        }),
{
    let front = replies.drop_last();
    lemma_ok_positions(front);
    let before = kept_items(report, front);
    let all = kept_items(report, replies);
    match replies.last() {
        Ok(item) => {
            assert(all =~= before.push((candidate(report, replies.len() - 1) as u32, item)));
        },
        Err(_) => {
            assert(all =~= before);
        },
    }
}

/// The enumeration in the middle and at the end of reading a menu.
pub open spec fn menu_state(
    s: EnumerationView,
    report: ControlReportView,
    replies: Seq<Result<MenuItemView, OsError>>,
) -> EnumerationView {
    if replies.len() < candidate_count(report) {
        EnumerationView {
            collected: s.collected,
            cursor: report.id,
            stage: StageView::MenuItem {
                report,
                items: kept_items(report, replies),
                index: candidate(report, replies.len() as int),
            },
        }
    } else {
        EnumerationView {
            collected: s.collected.push(
                DescriptionView::of_report(report, Some(kept_items(report, replies))),
            ),
            cursor: report.id,
            stage: StageView::NextControl,
        }
    }
}

proof fn lemma_menu_run(
    s: EnumerationView,
    report: ControlReportView,
    replies: Seq<Result<MenuItemView, OsError>>,
)
    requires
        s.stage is NextControl,
        report.typ.is_menu(),
        0 < candidate_count(report),
        replies.len() <= candidate_count(report),
    ensures
        run_menu(s.after_control(Ok(report)), replies) == menu_state(s, report, replies),
    decreases replies.len(),
{
    let start = s.after_control(Ok(report));
    if replies.len() == 0 {
        lemma_candidates(report, 0);
        assert(kept_items(report, replies) =~= Seq::empty());
    } else {
        let front = replies.drop_last();
        lemma_menu_run(s, report, front);
        lemma_candidates(report, front.len() as int);
        lemma_kept_items_step(report, replies);
    }
}

/// The menu of a control ends up with the items that the driver described,
/// and with no others, in the order of their indices; an index that the
/// driver refuses costs nothing but that index.
///
/// Let a driver report a control of a menu type, and then answer the queries
/// for its indices by `replies`, one reply for each index from the minimum to
/// the maximum, each a description or a failure of any kind. Then the
/// enumeration has not ended: it asks for the control that follows. It has
/// collected one more description, that of the control reported, and the
/// items of that description are exactly the items described, each under the
/// index it was asked for, in the order in which they were asked for. With a
/// positive step that is the ascending order of the indices.
pub proof fn lemma_menu_scan_keeps_successes(
    s: EnumerationView,
    report: ControlReportView,
    replies: Seq<Result<MenuItemView, OsError>>,
)
    requires
        s.stage is NextControl,
        report.typ.is_menu(),
        replies.len() == candidate_count(report),
    ensures
        ({
            let end = run_menu(s.after_control(Ok(report)), replies);
            let places = ok_positions(replies);
            let items = kept_items(report, replies);
            &&& end.stage is NextControl
            &&& end.request() == Some(Request::QueryControl { id: advance(report.id) })
            &&& end.collected == s.collected.push(DescriptionView::of_report(report, Some(items)))
            &&& items.len() == places.len()
            &&& forall|j: int|
                0 <= j < places.len() ==> 0 <= (#[trigger] places[j]) < replies.len()
                    && replies[places[j]] is Ok
            &&& forall|i: int|
                0 <= i < replies.len() && (#[trigger] replies[i]) is Ok ==> places.contains(i)
            &&& forall|j: int|
                0 <= j < places.len() ==> (#[trigger] items[j]) == (
                    (report.minimum + places[j] * report.step) as u32,
                    replies[places[j]]->Ok_0,
                )
            &&& forall|j: int, k: int|
                0 <= j < k < places.len() ==> (#[trigger] places[j]) < (#[trigger] places[k])
            &&& report.step > 0 ==> forall|j: int, k: int|
                0 <= j < k < places.len() ==> report.minimum + (#[trigger] places[j]) * report.step
                    < report.minimum + (#[trigger] places[k]) * report.step
        }),
{
    let places = ok_positions(replies);
    let items = kept_items(report, replies);
    lemma_ok_positions(replies);
    if candidate_count(report) == 0 {
        assert(replies =~= Seq::empty());
        assert(items =~= Seq::empty());
    } else {
        lemma_menu_run(s, report, replies);
    }
    assert forall|j: int| 0 <= j < places.len() implies (#[trigger] items[j]) == (
        (report.minimum + places[j] * report.step) as u32,
        replies[places[j]]->Ok_0,
    ) by {
        lemma_candidates(report, places[j]);
    }
    if report.step > 0 {
        assert forall|j: int, k: int| 0 <= j < k < places.len() implies report.minimum + (
        #[trigger] places[j]) * report.step < report.minimum + (#[trigger] places[k])
            * report.step by {
            let a = places[j];
            let b = places[k];
            let step = report.step as int;
            assert(a * step < b * step) by (nonlinear_arith)
                requires
                    a < b,
                    0 < step,
            ;
        }
    }
}

/// One reply leaves a well-formed enumeration well-formed.
pub proof fn lemma_reply_keeps_well_formed(s: EnumerationView, reply: ReplyView)
    requires
        s.well_formed(),
    ensures
        after(s, reply).well_formed(),
{
}

/// Whatever the driver replies, in whatever order, every description that an
/// enumeration has collected holds menu items exactly when its type is one of
/// the two menu types.
pub proof fn lemma_items_only_for_menus(replies: Seq<ReplyView>)
    ensures
        run(EnumerationView::initial(), replies).well_formed(),
        forall|i: int|
            0 <= i < run(EnumerationView::initial(), replies).collected.len() ==> (#[trigger] run(
                EnumerationView::initial(),
                replies,
            ).collected[i]).items_match_type(),
    decreases replies.len(),
{
    if replies.len() > 0 {
        lemma_items_only_for_menus(replies.drop_last());
        lemma_reply_keeps_well_formed(
            run(EnumerationView::initial(), replies.drop_last()),
            replies.last(),
        );
    }
}

/// What an enumeration has collected stays as it is and where it is: further
/// replies only add descriptions behind it.
pub proof fn lemma_collected_only_grows(s: EnumerationView, replies: Seq<ReplyView>)
    ensures
        s.collected.is_prefix_of(run(s, replies).collected),
    decreases replies.len(),
{
    if replies.len() > 0 {
        lemma_collected_only_grows(s, replies.drop_last());
    }
}

/// A device whose driver refuses the very first query for a control as
/// invalid input has no controls: the enumeration ends at once, without error,
/// and hands out the empty list.
pub proof fn lemma_device_without_controls(e: OsError)
    requires
        e.kind == ErrorKind::InvalidInput,
    ensures
        EnumerationView::initial().after_control(Err(e)).finished(),
        EnumerationView::initial().after_control(Err(e)).outcome() == Ok::<_, Error>(
            Seq::<DescriptionView>::empty(),
        ),
{
}

/// A failed query for the next control ends the enumeration: well, with what
/// was collected, if the failure is of the invalid-input class, and with the
/// failure itself otherwise.
pub proof fn lemma_failure_ends_enumeration(s: EnumerationView, e: OsError)
    requires
        s.stage is NextControl,
    ensures
        s.after_control(Err(e)).finished(),
        s.after_control(Err(e)).request() is None,
        s.after_control(Err(e)).outcome() == (if e.kind == ErrorKind::InvalidInput {
            Ok::<_, Error>(s.collected)
        } else {
            Err::<Seq<DescriptionView>, _>(Error::Os(e))
        }),
{
}

/// The replies of a driver that reports the given controls, none of a menu
/// type, one after the other.
pub open spec fn plain_reports(reports: Seq<ControlReportView>) -> Seq<ReplyView> {
    reports.map_values(|r: ControlReportView| ReplyView::Control(Ok(r)))
}

/// The descriptions of the given controls, none with menu items.
pub open spec fn plain_descriptions(reports: Seq<ControlReportView>) -> Seq<DescriptionView> {
    reports.map_values(|r: ControlReportView| DescriptionView::of_report(r, None))
}

/// The driver's order is the order of the result: a driver that reports some
/// controls that have no menu, and then refuses the next query as invalid
/// input, gets exactly those controls described, each once, in the order in
/// which it reported them.
pub proof fn lemma_driver_order_is_kept(reports: Seq<ControlReportView>, e: OsError)
    requires
        forall|i: int| 0 <= i < reports.len() ==> !(#[trigger] reports[i]).typ.is_menu(),
        e.kind == ErrorKind::InvalidInput,
    ensures
        run(EnumerationView::initial(), plain_reports(reports)).stage is NextControl,
        run(EnumerationView::initial(), plain_reports(reports)).collected == plain_descriptions(
            reports,
        ),
        run(
            EnumerationView::initial(),
            plain_reports(reports).push(ReplyView::Control(Err(e))),
        ).outcome() == Ok::<_, Error>(plain_descriptions(reports)),
    decreases reports.len(),
{
    let start = EnumerationView::initial();
    if reports.len() == 0 {
        assert(plain_descriptions(reports) =~= Seq::empty());
    } else {
        let front = reports.drop_last();
        lemma_driver_order_is_kept(front, e);
        assert(plain_reports(reports).drop_last() =~= plain_reports(front));
        assert(plain_descriptions(reports) =~= plain_descriptions(front).push(
            DescriptionView::of_report(reports.last(), None),
        ));
    }
    let all = plain_reports(reports).push(ReplyView::Control(Err(e)));
    assert(all.drop_last() =~= plain_reports(reports));
}

} // verus!

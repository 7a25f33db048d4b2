//! Rendering a snapshot of the statistics as the text of the managed
//! section: the total time, then up to four blocks of ranked entries, each
//! entry with a bar that shows its share.

use vstd::prelude::*;
use vstd::string::{StrSliceExecFns, StringExecFns};

use crate::text::{decimal, decimal_text, digit_char};
use crate::wakatime::stats::types::{StatItem, StatsData, BAR_LENGTH};

verus! {

/// The width that a share is right-aligned to.
pub const PERCENT_WIDTH: usize = 6;

/// `unit`, `n` times over.
pub open spec fn repeated(unit: Seq<char>, n: nat) -> Seq<char>
    decreases n,
{
    if n == 0 {
        Seq::empty()
    } else {
        repeated(unit, (n - 1) as nat) + unit
    }
}

/// The spaces that bring a text of `len` characters to `width` characters;
/// none where the text is that long already.
pub open spec fn padding(len: nat, width: nat) -> Seq<char> {
    repeated(
        " "@,
        if len < width {
            (width - len) as nat
        } else {
            0
        },
    )
}

/// `s`, followed by spaces up to `width` characters.
pub open spec fn left_aligned(s: Seq<char>, width: nat) -> Seq<char> {
    s + padding(s.len(), width)
}

/// `s`, preceded by spaces up to `width` characters.
pub open spec fn right_aligned(s: Seq<char>, width: nat) -> Seq<char> {
    padding(s.len(), width) + s
}

/// The number of filled cells in a bar that is asked to show `cells`
/// cells: never more than the bar has.
pub open spec fn filled_cells(cells: usize) -> nat {
    if cells > BAR_LENGTH {
        BAR_LENGTH as nat
    } else {
        cells as nat
    }
}

/// The bar for `cells` cells: the filled cells, then the empty ones, 25 in
/// all.
pub open spec fn bar(cells: usize) -> Seq<char> {
    repeated("█"@, filled_cells(cells)) + repeated("░"@, (BAR_LENGTH - filled_cells(cells)) as nat)
}

/// A share of `percent` hundredths of a percent, with two decimals and a
/// percent sign.
pub open spec fn percent_text(percent: u32) -> Seq<char> {
    decimal((percent / 100) as nat) + "."@ + seq![
        digit_char((percent % 100) as int / 10),
        digit_char((percent % 100) as int % 10),
    ] + "%"@
}

/// A time of `seconds` seconds in hours and minutes; the hours are left
/// out where there is none.
pub open spec fn duration_text(seconds: u64) -> Seq<char> {
    let hours = (seconds / 3600) as nat;
    let minutes = ((seconds % 3600) / 60) as nat;
    if hours > 0 {
        decimal(hours) + " hrs "@ + decimal(minutes) + " mins"@
    } else {
        decimal(minutes) + " mins"@
    }
}

/// The line of one entry: its name in a column of `name_width`
/// characters, its bar, its share, and its time where `with_time` is set.
pub open spec fn line(item: StatItem, name_width: nat, with_time: bool) -> Seq<char> {
    left_aligned(item.name@, name_width) + " "@ + bar(item.bar_cells) + " "@ + right_aligned(
        percent_text(item.percent),
        PERCENT_WIDTH as nat,
    ) + (if with_time {
        " "@ + item.text@
    } else {
        Seq::empty()
    }) + "\n"@
}

/// The lines of the first `count` entries of `items`.
pub open spec fn lines(items: Seq<StatItem>, count: nat, name_width: nat, with_time: bool) -> Seq<
    char,
>
    decreases count,
{
    if count == 0 {
        Seq::empty()
    } else {
        lines(items, (count - 1) as nat, name_width, with_time) + line(
            items[count - 1],
            name_width,
            with_time,
        )
    }
}

/// How many of `len` entries are shown when at most `limit` are.
pub open spec fn shown(len: nat, limit: nat) -> nat {
    if len < limit {
        len
    } else {
        limit
    }
}

/// The block of one breakdown: `opening`, the lines of its first `limit`
/// entries, and `closing`. A breakdown without entries has no block.
pub open spec fn block(
    opening: Seq<char>,
    items: Seq<StatItem>,
    limit: nat,
    name_width: nat,
    with_time: bool,
    closing: Seq<char>,
) -> Seq<char> {
    if items.len() == 0 {
        Seq::empty()
    } else {
        opening + lines(items, shown(items.len(), limit), name_width, with_time) + closing
    }
}

/// The text of the section for the snapshot `stats`.
pub open spec fn formatted(stats: StatsData) -> Seq<char> {
    "**🕐 Total Coding Time**: "@ + duration_text(stats.total_seconds) + "\n\n"@ + block(
        "**💻 Programming Languages**:\n```text\n"@,
        stats.languages@,
        5,
        15,
        true,
        "```\n\n"@,
    ) + block("**🛠️ Editors**:\n```text\n"@, stats.editors@, 3, 15, false, "```\n\n"@) + block(
        "**💻 Operating Systems**:\n```text\n"@,
        stats.operating_systems@,
        3,
        15,
        false,
        "```\n\n"@,
    ) + block("**📂 Projects**:\n```text\n"@, stats.projects@, 5, 30, false, "```\n"@)
}

fn push_repeated(out: &mut String, unit: &str, n: usize)
    ensures
        final(out)@ == old(out)@ + repeated(unit@, n as nat),
{
    let mut i: usize = 0;
    while i < n
        invariant
            i <= n,
            out@ == old(out)@ + repeated(unit@, i as nat),
        decreases n - i,
    {
        out.append(unit);
        i += 1;
        assert(out@ =~= old(out)@ + repeated(unit@, i as nat));
    }
}

fn push_padding(out: &mut String, len: usize, width: usize)
    ensures
        final(out)@ == old(out)@ + padding(len as nat, width as nat),
{
    if len < width {
        push_repeated(out, " ", width - len);
    } else {
        assert(out@ =~= old(out)@ + repeated(" "@, 0));
    }
}

fn push_bar(out: &mut String, cells: usize)
    ensures
        final(out)@ == old(out)@ + bar(cells),
{
    let filled: usize = if cells > BAR_LENGTH {
        BAR_LENGTH
    } else {
        cells
    };
    push_repeated(out, "█", filled);
    push_repeated(out, "░", BAR_LENGTH - filled);
    assert(out@ =~= old(out)@ + bar(cells));
}

/// A share, with two decimals and a percent sign.
pub fn percent_label(percent: u32) -> (label: String)
    ensures
        label@ == percent_text(percent),
{
    let cents: u32 = percent % 100;
    let mut label = decimal_text((percent / 100) as u64);
    label.append(".");
    let high = decimal_text((cents / 10) as u64);
    let low = decimal_text((cents % 10) as u64);
    label.append(high.as_str());
    label.append(low.as_str());
    label.append("%");
    assert(label@ =~= percent_text(percent));
    label
}

/// A time in hours and minutes.
pub fn format_duration(seconds: u64) -> (text: String)
    ensures
        text@ == duration_text(seconds),
{
    let hours: u64 = seconds / 3600;
    let minutes: u64 = (seconds % 3600) / 60;
    if hours > 0 {
        let mut text = decimal_text(hours);
        text.append(" hrs ");
        text.append(decimal_text(minutes).as_str());
        text.append(" mins");
        text
    } else {
        let mut text = decimal_text(minutes);
        text.append(" mins");
        text
    }
}

/// The bar for `cells` cells.
pub fn generate_bar(cells: usize) -> (text: String)
    ensures
        text@ == bar(cells),
{
    let mut text = String::new();
    push_bar(&mut text, cells);
    assert(text@ =~= bar(cells));
    text
}

fn push_line(out: &mut String, item: &StatItem, name_width: usize, with_time: bool)
    ensures
        final(out)@ == old(out)@ + line(*item, name_width as nat, with_time),
{
    let name_len: usize = item.name.as_str().unicode_len();
    out.append(item.name.as_str());
    push_padding(out, name_len, name_width);
    out.append(" ");
    push_bar(out, item.bar_cells);
    out.append(" ");
    let label = percent_label(item.percent);
    let label_len: usize = label.as_str().unicode_len();
    push_padding(out, label_len, PERCENT_WIDTH);
    out.append(label.as_str());
    if with_time {
        out.append(" ");
        out.append(item.text.as_str());
    }
    out.append("\n");
    assert(out@ =~= old(out)@ + line(*item, name_width as nat, with_time));
}

fn push_block(
    out: &mut String,
    opening: &str,
    items: &Vec<StatItem>,
    limit: usize,
    name_width: usize,
    with_time: bool,
    closing: &str,
)
    ensures
        final(out)@ == old(out)@ + block(
            opening@,
            items@,
            limit as nat,
            name_width as nat,
            with_time,
            closing@,
        ),
{
    if items.len() == 0 {
        assert(out@ =~= old(out)@ + Seq::<char>::empty());
        return ;
    }
    out.append(opening);
    let count: usize = if items.len() < limit {
        items.len()
    } else {
        limit
    };
    let mut i: usize = 0;
    while i < count
        invariant
            i <= count <= items@.len(),
            out@ == old(out)@ + opening@ + lines(items@, i as nat, name_width as nat, with_time),
        decreases count - i,
    {
        push_line(out, &items[i], name_width, with_time);
        i += 1;
        assert(out@ =~= old(out)@ + opening@ + lines(
            items@,
            i as nat,
            name_width as nat,
            with_time,
        ));
    }
    out.append(closing);
    assert(out@ =~= old(out)@ + block(
        opening@,
        items@,
        limit as nat,
        name_width as nat,
        with_time,
        closing@,
    ));
}

pub struct StatsFormatter;

impl StatsFormatter {
    /// Renders the snapshot `stats` as the text of the section: the total
    /// time, then the first five languages, three editors, three operating
    /// systems and five projects, leaving out a breakdown that is empty.
    pub fn format(stats: &StatsData) -> (text: String)
        ensures
            text@ == formatted(*stats),
    {
        let mut output = String::from_str("**🕐 Total Coding Time**: ");
        output.append(format_duration(stats.total_seconds).as_str());
        output.append("\n\n");
        push_block(
            &mut output,
            "**💻 Programming Languages**:\n```text\n",
            &stats.languages,
            5,
            15,
            true,
            "```\n\n",
        );
        push_block(&mut output, "**🛠️ Editors**:\n```text\n", &stats.editors, 3, 15, false, "```\n\n");
        push_block(
            &mut output,
            "**💻 Operating Systems**:\n```text\n",
            &stats.operating_systems,
            3,
            15,
            false,
            "```\n\n",
        );
        push_block(&mut output, "**📂 Projects**:\n```text\n", &stats.projects, 5, 30, false, "```\n");
        output
    }
}

/// A bar has 25 cells, however many it is asked to show.
pub proof fn lemma_bar_has_full_length(cells: usize)
    ensures
        bar(cells).len() == BAR_LENGTH,
{
    reveal_strlit("█");
    reveal_strlit("░");
    lemma_repeated_len("█"@, filled_cells(cells));
    lemma_repeated_len("░"@, (BAR_LENGTH - filled_cells(cells)) as nat);
}

/// `n` repetitions of `unit` are `n` times as long as `unit`.
pub proof fn lemma_repeated_len(unit: Seq<char>, n: nat)
    ensures
        repeated(unit, n).len() == n * unit.len(),
    decreases n,
{
    let len = unit.len() as int;
    if n == 0 {
        assert(0 * len == 0) by (nonlinear_arith);
    } else {
        lemma_repeated_len(unit, (n - 1) as nat);
        assert(n * len == (n - 1) * len + len) by (nonlinear_arith);
    }
}

} // verus!

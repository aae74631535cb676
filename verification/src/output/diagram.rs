//! The rocket drawn in characters: a nose cone for the payload, a box for
//! each stage from the top down, and a nozzle.

use vstd::prelude::*;
use vstd::string::*;

use crate::units::fmt::{decimal, push_char, push_number};

verus! {

/// Width of the rocket's body, in characters.
pub const ROCKET_WIDTH: usize = 12;

/// Least height of a drawn stage, in lines.
pub const MIN_STAGE_HEIGHT: usize = 3;

/// Greatest height of a drawn stage, in lines.
pub const MAX_STAGE_HEIGHT: usize = 10;

/// What the drawing shows of one stage.
#[derive(Debug, Clone)]
pub struct StageDrawing {
    /// Height of the stage's box in lines, without its bottom border.
    pub height: usize,
    /// Name of the engine type.
    pub engine_name: String,
    /// Number of engines.
    pub engine_count: u32,
    /// The propellant mass as it is to be shown, without its unit.
    pub propellant_label: String,
}

/// `count` times the character `c`.
pub open spec fn run(c: char, count: nat) -> Seq<char> {
    Seq::new(count, |i: int| c)
}

/// `text` moved to the right edge of a field of `width` characters; a text
/// that is wider stays as it is.
pub open spec fn right_aligned(text: Seq<char>, width: nat) -> Seq<char> {
    if text.len() >= width {
        text
    } else {
        run(' ', (width - text.len()) as nat) + text
    }
}

/// `text` in the middle of a field of `width` characters; of an odd number
/// of spare places the greater half stands behind the text.
pub open spec fn centered(text: Seq<char>, width: nat) -> Seq<char> {
    if text.len() >= width {
        text
    } else {
        let spare = (width - text.len()) as nat;
        run(' ', spare / 2) + text + run(' ', (spare - spare / 2) as nat)
    }
}

/// The three lines of the nozzle.
pub open spec fn nozzle_lines() -> Seq<Seq<char>> {
    seq![
        right_aligned("\\    /"@, (ROCKET_WIDTH / 2 + 4) as nat),
        right_aligned("\\  /"@, (ROCKET_WIDTH / 2 + 3) as nat),
        right_aligned("\\/"@, (ROCKET_WIDTH / 2 + 2) as nat),
    ]
}

/// The four lines of the nose cone; the third names the payload.
pub open spec fn nose_cone_lines(payload_label: Seq<char>) -> Seq<Seq<char>> {
    seq![
        right_aligned("/\\"@, (ROCKET_WIDTH / 2 + 2) as nat),
        right_aligned("/  \\"@, (ROCKET_WIDTH / 2 + 3) as nat),
        right_aligned("/    \\"@, (ROCKET_WIDTH / 2 + 4) as nat) + "   <- Payload ("@ + payload_label
            + " kg)"@,
        right_aligned("/______\\"@, (ROCKET_WIDTH / 2 + 5) as nat),
    ]
}

/// What stands in the box of a stage on line `line`: the stage's label on
/// the middle line, nothing elsewhere.
pub open spec fn body_text(stage_num: nat, height: nat, line: nat) -> Seq<char> {
    if line == height / 2 {
        "S"@ + decimal(stage_num)
    } else {
        Seq::empty()
    }
}

/// What stands beside the box of a stage on line `line`: the engines on
/// the first line, the propellant on the second, nothing below.
pub open spec fn annotation(
    stage_num: nat,
    engine_name: Seq<char>,
    engine_count: nat,
    propellant_label: Seq<char>,
    line: nat,
) -> Seq<char> {
    if line == 0 {
        "  <- Stage "@ + decimal(stage_num) + ": "@ + engine_name + " x"@ + decimal(engine_count)
    } else if line == 1 {
        "     "@ + propellant_label + " kg"@
    } else {
        Seq::empty()
    }
}

/// Line `line` of a stage's box.
pub open spec fn stage_line(
    stage_num: nat,
    height: nat,
    engine_name: Seq<char>,
    engine_count: nat,
    propellant_label: Seq<char>,
    line: nat,
) -> Seq<char> {
    " |"@ + centered(body_text(stage_num, height, line), ROCKET_WIDTH as nat) + "|"@ + annotation(
        stage_num,
        engine_name,
        engine_count,
        propellant_label,
        line,
    )
}

/// The bottom border of a stage's box.
pub open spec fn stage_border() -> Seq<char> {
    " |"@ + run('_', ROCKET_WIDTH as nat) + "|"@
}

/// The lines of a stage: `height` lines of its box, then the border.
pub open spec fn stage_lines(
    stage_num: nat,
    height: nat,
    engine_name: Seq<char>,
    engine_count: nat,
    propellant_label: Seq<char>,
) -> Seq<Seq<char>> {
    Seq::new(
        height,
        |line: int|
            stage_line(
                stage_num,
                height,
                engine_name,
                engine_count,
                propellant_label,
                line as nat,
            ),
    ).push(stage_border())
}

/// The lines of the stage at index `i`, which is stage number `i + 1`.
pub open spec fn drawn_stage(stages: Seq<StageDrawing>, i: int) -> Seq<Seq<char>> {
    stage_lines(
        (i + 1) as nat,
        stages[i].height as nat,
        stages[i].engine_name@,
        stages[i].engine_count as nat,
        stages[i].propellant_label@,
    )
}

/// The lines of the stages from the top one down to index `from`.
pub open spec fn stages_down_to(stages: Seq<StageDrawing>, from: int) -> Seq<Seq<char>>
    decreases stages.len() - from,
{
    if from >= stages.len() {
        Seq::empty()
    } else {
        stages_down_to(stages, from + 1) + drawn_stage(stages, from)
    }
}

/// The whole drawing: nose cone, stages from the top down, nozzle; or one
/// line that says that there is no stage.
pub open spec fn diagram_lines(stages: Seq<StageDrawing>, payload_label: Seq<char>) -> Seq<
    Seq<char>,
> {
    if stages.len() == 0 {
        seq!["(empty rocket)"@]
    } else {
        nose_cone_lines(payload_label) + stages_down_to(stages, 0) + nozzle_lines()
    }
}

/// The height of a stage whose share of the tallest stage's propellant
/// rounds to `tenths` tenths: that many lines, and at least three.
pub open spec fn spec_stage_height(tenths: usize) -> usize {
    if tenths < MIN_STAGE_HEIGHT {
        MIN_STAGE_HEIGHT
    } else {
        tenths
    }
}

/// The texts of a list of strings.
pub open spec fn texts(lines: Seq<String>) -> Seq<Seq<char>> {
    Seq::new(lines.len(), |i: int| lines[i]@)
}

fn push_run(out: &mut String, c: char, count: usize)
    ensures
        final(out)@ == old(out)@ + run(c, count as nat),
{
    let mut i: usize = 0;
    assert(out@ + run(c, 0) == out@);
    while i < count
        invariant
            i <= count,
            out@ == old(out)@ + run(c, i as nat),
        decreases count - i,
    {
        push_char(out, c);
        assert(run(c, (i + 1) as nat) == run(c, i as nat).push(c));
        i = i + 1;
    }
}

/// Moves `text` to the right edge of a field of `width` characters.
pub fn align_right(text: &str, width: usize) -> (r: String)
    ensures
        r@ == right_aligned(text@, width as nat),
{
    let n: usize = text.unicode_len();
    let mut out: String = String::new();
    if n < width {
        push_run(&mut out, ' ', width - n);
    }
    out.append(text);
    out
}

/// Puts `text` in the middle of a field of `width` characters.
pub fn center(text: &str, width: usize) -> (r: String)
    ensures
        r@ == centered(text@, width as nat),
{
    let n: usize = text.unicode_len();
    let mut out: String = String::new();
    if n < width {
        let spare: usize = width - n;
        push_run(&mut out, ' ', spare / 2);
        out.append(text);
        push_run(&mut out, ' ', spare - spare / 2);
    } else {
        out.append(text);
    }
    out
}

/// The height of a stage's box from its rounded share of ten lines.
#[verifier::when_used_as_spec(spec_stage_height)]
pub fn stage_height(tenths: usize) -> (r: usize)
    ensures
        r == spec_stage_height(tenths),
{
    if tenths < MIN_STAGE_HEIGHT {
        MIN_STAGE_HEIGHT
    } else {
        tenths
    }
}

/// The nozzle under the first stage: three lines that narrow to a point.
pub fn draw_nozzles() -> (r: Vec<String>)
    ensures
        texts(r@) == nozzle_lines(),
{
    let half_width: usize = ROCKET_WIDTH / 2;
    let mut lines: Vec<String> = Vec::new();
    lines.push(align_right("\\    /", half_width + 4));
    lines.push(align_right("\\  /", half_width + 3));
    lines.push(align_right("\\/", half_width + 2));
    assert(texts(lines@) == nozzle_lines());
    lines
}

/// The nose cone: four lines that widen from the tip; the third names the
/// payload with the mass given in `payload_label`.
pub fn draw_nose_cone(payload_label: &str) -> (r: Vec<String>)
    ensures
        texts(r@) == nose_cone_lines(payload_label@),
{
    let half_width: usize = ROCKET_WIDTH / 2;
    let mut lines: Vec<String> = Vec::new();
    lines.push(align_right("/\\", half_width + 2));
    lines.push(align_right("/  \\", half_width + 3));
    let mut third: String = align_right("/    \\", half_width + 4);
    third.append("   <- Payload (");
    third.append(payload_label);
    third.append(" kg)");
    lines.push(third);
    lines.push(align_right("/______\\", half_width + 5));
    assert(texts(lines@) == nose_cone_lines(payload_label@));
    lines
}

/// The box of one stage: `height` lines with the stage's label in the
/// middle one, the engines beside the first and the propellant beside the
/// second, and a bottom border.
pub fn draw_stage(
    stage_num: usize,
    height: usize,
    engine_name: &str,
    engine_count: u32,
    propellant_label: &str,
) -> (r: Vec<String>)
    ensures
        texts(r@) == stage_lines(
            stage_num as nat,
            height as nat,
            engine_name@,
            engine_count as nat,
            propellant_label@,
        ),
{
    let mut lines: Vec<String> = Vec::new();
    let middle_line: usize = height / 2;
    let mut line: usize = 0;
    let ghost whole = stage_lines(
        stage_num as nat,
        height as nat,
        engine_name@,
        engine_count as nat,
        propellant_label@,
    );
    while line < height
        invariant
            line <= height,
            middle_line == height / 2,
            texts(lines@) == whole.take(line as int),
            whole == stage_lines(
                stage_num as nat,
                height as nat,
                engine_name@,
                engine_count as nat,
                propellant_label@,
            ),
        decreases height - line,
    {
        let mut label: String = String::new();
        if line == middle_line {
            label.append("S");
            push_number(&mut label, stage_num as u64);
        }
        assert(label@ == body_text(stage_num as nat, height as nat, line as nat));
        let middle: String = center(label.as_str(), ROCKET_WIDTH);
        let mut text: String = String::new();
        text.append(" |");
        text.append(middle.as_str());
        text.append("|");
        if line == 0 {
            text.append("  <- Stage ");
            push_number(&mut text, stage_num as u64);
            text.append(": ");
            text.append(engine_name);
            text.append(" x");
            push_number(&mut text, engine_count as u64);
        } else if line == 1 {
            text.append("     ");
            text.append(propellant_label);
            text.append(" kg");
        }
        proof {
            assert(text@ == stage_line(
                stage_num as nat,
                height as nat,
                engine_name@,
                engine_count as nat,
                propellant_label@,
                line as nat,
            ));
            assert(whole[line as int] == text@);
        }
        let ghost before = texts(lines@);
        lines.push(text);
        proof {
            assert(texts(lines@) == before.push(text@));
            assert(whole.take(line + 1) == whole.take(line as int).push(whole[line as int]));
        }
        line = line + 1;
    }
    let mut border: String = String::new();
    border.append(" |");
    push_run(&mut border, '_', ROCKET_WIDTH);
    border.append("|");
    let ghost before = texts(lines@);
    lines.push(border);
    proof {
        assert(texts(lines@) == before.push(border@));
        assert(whole.take(height as int).push(stage_border()) == whole);
    }
    lines
}

/// Draws the rocket: the nose cone with the payload's label, every stage
/// from the top one down to the first, and the nozzle. Without a stage the
/// drawing is the one line `(empty rocket)`.
pub fn generate_rocket_diagram(stages: &Vec<StageDrawing>, payload_label: &str) -> (r: Vec<String>)
    ensures
        texts(r@) == diagram_lines(stages@, payload_label@),
{
    let mut lines: Vec<String> = Vec::new();
    if stages.len() == 0 {
        let mut only: String = String::new();
        only.append("(empty rocket)");
        lines.push(only);
        assert(texts(lines@) == seq!["(empty rocket)"@]);
        return lines;
    }
    let mut cone: Vec<String> = draw_nose_cone(payload_label);
    lines.append(&mut cone);
    assert(texts(lines@) == nose_cone_lines(payload_label@));
    let mut i: usize = stages.len();
    while i > 0
        invariant
            i <= stages@.len(),
            texts(lines@) == nose_cone_lines(payload_label@) + stages_down_to(stages@, i as int),
        decreases i,
    {
        i = i - 1;
        let stage: &StageDrawing = &stages[i];
        let mut drawn: Vec<String> = draw_stage(
            i + 1,
            stage.height,
            stage.engine_name.as_str(),
            stage.engine_count,
            stage.propellant_label.as_str(),
        );
        let ghost before = texts(lines@);
        let ghost added = texts(drawn@);
        lines.append(&mut drawn);
        proof {
            assert(added == drawn_stage(stages@, i as int));
            assert(texts(lines@) == before + added);
        }
    }
    let mut nozzle: Vec<String> = draw_nozzles();
    let ghost before = texts(lines@);
    let ghost added = texts(nozzle@);
    lines.append(&mut nozzle);
    assert(texts(lines@) == before + added);
    lines
}

} // verus!

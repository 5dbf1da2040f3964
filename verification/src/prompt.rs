//! Prompt hints for annotated captures: one line per marker, saying where it
//! is and what to look at, in the user's language (English, Japanese,
//! Chinese, Korean, German or Spanish; anything else falls back to English).
//!
//! Marker positions arrive already placed in screen thirds and as integer
//! percentages; this module chooses the words and lays out the text.

use vstd::prelude::*;
use crate::text::{chars_of, push_decimal, push_signed_decimal, signed_decimal, string_from_chars, string_of, trim_chars};

verus! {

/// Which third of the image, top to bottom.
#[derive(Debug, Clone, Copy, PartialEq, Eq, Structural)]
pub enum VerticalBand {
    Upper,
    Center,
    Lower,
}

/// Which third of the image, left to right.
#[derive(Debug, Clone, Copy, PartialEq, Eq, Structural)]
pub enum HorizontalBand {
    Left,
    Center,
    Right,
}

/// The languages prompts are written in.
#[derive(Debug, Clone, Copy, PartialEq, Eq, Structural)]
pub enum PromptLanguage {
    En,
    Ja,
    Zh,
    Ko,
    De,
    Es,
}

/// The part of a language tag before the first `-` or `_` (`"ja-JP"` -> `"ja"`).
pub open spec fn language_prefix(language: Seq<char>) -> Seq<char>
    decreases language.len(),
{
    if language.len() == 0 || language[0] == '-' || language[0] == '_' {
        Seq::empty()
    } else {
        seq![language[0]] + language_prefix(language.drop_first())
    }
}

/// The prompt language a language tag selects.
pub open spec fn prompt_language(language: Seq<char>) -> PromptLanguage {
    let p = language_prefix(language);
    if p == "ja"@ {
        PromptLanguage::Ja
    } else if p == "zh"@ {
        PromptLanguage::Zh
    } else if p == "ko"@ {
        PromptLanguage::Ko
    } else if p == "de"@ {
        PromptLanguage::De
    } else if p == "es"@ {
        PromptLanguage::Es
    } else {
        PromptLanguage::En
    }
}

fn language_prefix_chars(language: &str) -> (r: Vec<char>)
    ensures
        r@ == language_prefix(language@),
{
    let chars = chars_of(language);
    let mut end: usize = 0;
    while end < chars.len() && chars[end] != '-' && chars[end] != '_'
        invariant
            end <= chars.len(),
            chars@ == language@,
            forall|j: int| 0 <= j < end ==> chars@[j] != '-' && chars@[j] != '_',
        decreases chars.len() - end,
    {
        end = end + 1;
    }
    let mut out: Vec<char> = Vec::new();
    let mut i: usize = 0;
    while i < end
        invariant
            i <= end <= chars.len(),
            out@ == chars@.take(i as int),
        decreases end - i,
    {
        out.push(chars[i]);
        assert(chars@.take((i + 1) as int) =~= chars@.take(i as int).push(chars@[i as int]));
        i = i + 1;
    }
    proof {
        lemma_language_prefix_is_take(chars@, end as int);
    }
    out
}

proof fn lemma_language_prefix_is_take(s: Seq<char>, end: int)
    requires
        0 <= end <= s.len(),
        forall|j: int| 0 <= j < end ==> s[j] != '-' && s[j] != '_',
        end == s.len() || s[end] == '-' || s[end] == '_',
    ensures
        language_prefix(s) == s.take(end),
    decreases end,
{
    if end == 0 {
        assert(s.take(0) =~= Seq::<char>::empty());
    } else {
        lemma_language_prefix_is_take(s.drop_first(), end - 1);
        assert(s.take(end) =~= seq![s[0]] + s.drop_first().take(end - 1));
    }
}

/// Selects the prompt language from a language tag such as `"ja"` or `"de-AT"`.
pub fn select_prompt_language(language: &str) -> (r: PromptLanguage)
    ensures
        r == prompt_language(language@),
{
    let p = language_prefix_chars(language);
    if crate::text::chars_eq_str(&p, "ja") {
        PromptLanguage::Ja
    } else if crate::text::chars_eq_str(&p, "zh") {
        PromptLanguage::Zh
    } else if crate::text::chars_eq_str(&p, "ko") {
        PromptLanguage::Ko
    } else if crate::text::chars_eq_str(&p, "de") {
        PromptLanguage::De
    } else if crate::text::chars_eq_str(&p, "es") {
        PromptLanguage::Es
    } else {
        PromptLanguage::En
    }
}

/// The name of a region of the image in the given language.
pub open spec fn region_label(
    lang: PromptLanguage,
    v: VerticalBand,
    h: HorizontalBand,
) -> Seq<char> {
    match lang {
        PromptLanguage::Ja => match (v, h) {
            (VerticalBand::Center, HorizontalBand::Center) => "中央"@,
            (VerticalBand::Center, HorizontalBand::Left) => "中央左"@,
            (VerticalBand::Center, HorizontalBand::Right) => "中央右"@,
            (VerticalBand::Upper, HorizontalBand::Center) => "上中央"@,
            (VerticalBand::Lower, HorizontalBand::Center) => "下中央"@,
            (VerticalBand::Upper, HorizontalBand::Left) => "左上"@,
            (VerticalBand::Upper, HorizontalBand::Right) => "右上"@,
            (VerticalBand::Lower, HorizontalBand::Left) => "左下"@,
            (VerticalBand::Lower, HorizontalBand::Right) => "右下"@,
        },
        PromptLanguage::Zh => match (v, h) {
            (VerticalBand::Center, HorizontalBand::Center) => "中央"@,
            (VerticalBand::Center, HorizontalBand::Left) => "中左"@,
            (VerticalBand::Center, HorizontalBand::Right) => "中右"@,
            (VerticalBand::Upper, HorizontalBand::Center) => "上中"@,
            (VerticalBand::Lower, HorizontalBand::Center) => "下中"@,
            (VerticalBand::Upper, HorizontalBand::Left) => "左上"@,
            (VerticalBand::Upper, HorizontalBand::Right) => "右上"@,
            (VerticalBand::Lower, HorizontalBand::Left) => "左下"@,
            (VerticalBand::Lower, HorizontalBand::Right) => "右下"@,
        },
        PromptLanguage::Ko => match (v, h) {
            (VerticalBand::Center, HorizontalBand::Center) => "중앙"@,
            (VerticalBand::Center, HorizontalBand::Left) => "중앙 왼쪽"@,
            (VerticalBand::Center, HorizontalBand::Right) => "중앙 오른쪽"@,
            (VerticalBand::Upper, HorizontalBand::Center) => "상단 중앙"@,
            (VerticalBand::Lower, HorizontalBand::Center) => "하단 중앙"@,
            (VerticalBand::Upper, HorizontalBand::Left) => "왼쪽 상단"@,
            (VerticalBand::Upper, HorizontalBand::Right) => "오른쪽 상단"@,
            (VerticalBand::Lower, HorizontalBand::Left) => "왼쪽 하단"@,
            (VerticalBand::Lower, HorizontalBand::Right) => "오른쪽 하단"@,
        },
        PromptLanguage::De => match (v, h) {
            (VerticalBand::Center, HorizontalBand::Center) => "Mitte"@,
            (VerticalBand::Center, HorizontalBand::Left) => "mittig links"@,
            (VerticalBand::Center, HorizontalBand::Right) => "mittig rechts"@,
            (VerticalBand::Upper, HorizontalBand::Center) => "oben mittig"@,
            (VerticalBand::Lower, HorizontalBand::Center) => "unten mittig"@,
            (VerticalBand::Upper, HorizontalBand::Left) => "oben links"@,
            (VerticalBand::Upper, HorizontalBand::Right) => "oben rechts"@,
            (VerticalBand::Lower, HorizontalBand::Left) => "unten links"@,
            (VerticalBand::Lower, HorizontalBand::Right) => "unten rechts"@,
        },
        PromptLanguage::Es => match (v, h) {
            (VerticalBand::Center, HorizontalBand::Center) => "centro"@,
            (VerticalBand::Center, HorizontalBand::Left) => "centro-izquierda"@,
            (VerticalBand::Center, HorizontalBand::Right) => "centro-derecha"@,
            (VerticalBand::Upper, HorizontalBand::Center) => "parte superior central"@,
            (VerticalBand::Lower, HorizontalBand::Center) => "parte inferior central"@,
            (VerticalBand::Upper, HorizontalBand::Left) => "superior izquierda"@,
            (VerticalBand::Upper, HorizontalBand::Right) => "superior derecha"@,
            (VerticalBand::Lower, HorizontalBand::Left) => "inferior izquierda"@,
            (VerticalBand::Lower, HorizontalBand::Right) => "inferior derecha"@,
        },
        PromptLanguage::En => match (v, h) {
            (VerticalBand::Center, HorizontalBand::Center) => "center"@,
            (VerticalBand::Center, HorizontalBand::Left) => "center-left"@,
            (VerticalBand::Center, HorizontalBand::Right) => "center-right"@,
            (VerticalBand::Upper, HorizontalBand::Center) => "upper-center"@,
            (VerticalBand::Lower, HorizontalBand::Center) => "lower-center"@,
            (VerticalBand::Upper, HorizontalBand::Left) => "upper-left"@,
            (VerticalBand::Upper, HorizontalBand::Right) => "upper-right"@,
            (VerticalBand::Lower, HorizontalBand::Left) => "lower-left"@,
            (VerticalBand::Lower, HorizontalBand::Right) => "lower-right"@,
        },
    }
}

/// The name of a region of the image in the given language.
pub fn region_label_for_language(v: VerticalBand, h: HorizontalBand, lang: PromptLanguage) -> (r:
    &'static str)
    ensures
        r@ == region_label(lang, v, h),
{
    match lang {
        PromptLanguage::Ja => match (v, h) {
            (VerticalBand::Center, HorizontalBand::Center) => "中央",
            (VerticalBand::Center, HorizontalBand::Left) => "中央左",
            (VerticalBand::Center, HorizontalBand::Right) => "中央右",
            (VerticalBand::Upper, HorizontalBand::Center) => "上中央",
            (VerticalBand::Lower, HorizontalBand::Center) => "下中央",
            (VerticalBand::Upper, HorizontalBand::Left) => "左上",
            (VerticalBand::Upper, HorizontalBand::Right) => "右上",
            (VerticalBand::Lower, HorizontalBand::Left) => "左下",
            (VerticalBand::Lower, HorizontalBand::Right) => "右下",
        },
        PromptLanguage::Zh => match (v, h) {
            (VerticalBand::Center, HorizontalBand::Center) => "中央",
            (VerticalBand::Center, HorizontalBand::Left) => "中左",
            (VerticalBand::Center, HorizontalBand::Right) => "中右",
            (VerticalBand::Upper, HorizontalBand::Center) => "上中",
            (VerticalBand::Lower, HorizontalBand::Center) => "下中",
            (VerticalBand::Upper, HorizontalBand::Left) => "左上",
            (VerticalBand::Upper, HorizontalBand::Right) => "右上",
            (VerticalBand::Lower, HorizontalBand::Left) => "左下",
            (VerticalBand::Lower, HorizontalBand::Right) => "右下",
        },
        PromptLanguage::Ko => match (v, h) {
            (VerticalBand::Center, HorizontalBand::Center) => "중앙",
            (VerticalBand::Center, HorizontalBand::Left) => "중앙 왼쪽",
            (VerticalBand::Center, HorizontalBand::Right) => "중앙 오른쪽",
            (VerticalBand::Upper, HorizontalBand::Center) => "상단 중앙",
            (VerticalBand::Lower, HorizontalBand::Center) => "하단 중앙",
            (VerticalBand::Upper, HorizontalBand::Left) => "왼쪽 상단",
            (VerticalBand::Upper, HorizontalBand::Right) => "오른쪽 상단",
            (VerticalBand::Lower, HorizontalBand::Left) => "왼쪽 하단",
            (VerticalBand::Lower, HorizontalBand::Right) => "오른쪽 하단",
        },
        PromptLanguage::De => match (v, h) {
            (VerticalBand::Center, HorizontalBand::Center) => "Mitte",
            (VerticalBand::Center, HorizontalBand::Left) => "mittig links",
            (VerticalBand::Center, HorizontalBand::Right) => "mittig rechts",
            (VerticalBand::Upper, HorizontalBand::Center) => "oben mittig",
            (VerticalBand::Lower, HorizontalBand::Center) => "unten mittig",
            (VerticalBand::Upper, HorizontalBand::Left) => "oben links",
            (VerticalBand::Upper, HorizontalBand::Right) => "oben rechts",
            (VerticalBand::Lower, HorizontalBand::Left) => "unten links",
            (VerticalBand::Lower, HorizontalBand::Right) => "unten rechts",
        },
        PromptLanguage::Es => match (v, h) {
            (VerticalBand::Center, HorizontalBand::Center) => "centro",
            (VerticalBand::Center, HorizontalBand::Left) => "centro-izquierda",
            (VerticalBand::Center, HorizontalBand::Right) => "centro-derecha",
            (VerticalBand::Upper, HorizontalBand::Center) => "parte superior central",
            (VerticalBand::Lower, HorizontalBand::Center) => "parte inferior central",
            (VerticalBand::Upper, HorizontalBand::Left) => "superior izquierda",
            (VerticalBand::Upper, HorizontalBand::Right) => "superior derecha",
            (VerticalBand::Lower, HorizontalBand::Left) => "inferior izquierda",
            (VerticalBand::Lower, HorizontalBand::Right) => "inferior derecha",
        },
        PromptLanguage::En => match (v, h) {
            (VerticalBand::Center, HorizontalBand::Center) => "center",
            (VerticalBand::Center, HorizontalBand::Left) => "center-left",
            (VerticalBand::Center, HorizontalBand::Right) => "center-right",
            (VerticalBand::Upper, HorizontalBand::Center) => "upper-center",
            (VerticalBand::Lower, HorizontalBand::Center) => "lower-center",
            (VerticalBand::Upper, HorizontalBand::Left) => "upper-left",
            (VerticalBand::Upper, HorizontalBand::Right) => "upper-right",
            (VerticalBand::Lower, HorizontalBand::Left) => "lower-left",
            (VerticalBand::Lower, HorizontalBand::Right) => "lower-right",
        },
    }
}

/// The first line of a prompt hint.
pub open spec fn prompt_intro(lang: PromptLanguage) -> Seq<char> {
    match lang {
        PromptLanguage::Ja => "添付したスクリーンショットでは、次のマーカーに注目してください:"@,
        PromptLanguage::Zh => "请重点查看附带截图中的以下标记区域："@,
        PromptLanguage::Ko => "첨부된 스크린샷에서 다음 표시 영역을 중점적으로 봐 주세요:"@,
        PromptLanguage::De => "Bitte konzentriere dich im angehängten Screenshot auf die folgenden Markierungen:"@,
        PromptLanguage::Es => "Concéntrate en las siguientes marcas de la captura adjunta:"@,
        PromptLanguage::En => "Focus on the marked regions in the attached screenshot:"@,
    }
}

fn prompt_intro_str(lang: PromptLanguage) -> (r: &'static str)
    ensures
        r@ == prompt_intro(lang),
{
    match lang {
        PromptLanguage::Ja => "添付したスクリーンショットでは、次のマーカーに注目してください:",
        PromptLanguage::Zh => "请重点查看附带截图中的以下标记区域：",
        PromptLanguage::Ko => "첨부된 스크린샷에서 다음 표시 영역을 중점적으로 봐 주세요:",
        PromptLanguage::De => "Bitte konzentriere dich im angehängten Screenshot auf die folgenden Markierungen:",
        PromptLanguage::Es => "Concéntrate en las siguientes marcas de la captura adjunta:",
        PromptLanguage::En => "Focus on the marked regions in the attached screenshot:",
    }
}

/// What a pin without a note asks for.
pub open spec fn default_pin_note(lang: PromptLanguage) -> Seq<char> {
    match lang {
        PromptLanguage::Ja => "このポイントを重点的に確認してください"@,
        PromptLanguage::Zh => "请重点查看这个点"@,
        PromptLanguage::Ko => "이 지점을 자세히 확인해 주세요"@,
        PromptLanguage::De => "prüfe diesen Punkt genau"@,
        PromptLanguage::Es => "revisa este punto con detalle"@,
        PromptLanguage::En => "inspect this point closely"@,
    }
}

fn default_pin_note_str(lang: PromptLanguage) -> (r: &'static str)
    ensures
        r@ == default_pin_note(lang),
{
    match lang {
        PromptLanguage::Ja => "このポイントを重点的に確認してください",
        PromptLanguage::Zh => "请重点查看这个点",
        PromptLanguage::Ko => "이 지점을 자세히 확인해 주세요",
        PromptLanguage::De => "prüfe diesen Punkt genau",
        PromptLanguage::Es => "revisa este punto con detalle",
        PromptLanguage::En => "inspect this point closely",
    }
}

/// What a rectangle without a note asks for.
pub open spec fn default_rect_note(lang: PromptLanguage) -> Seq<char> {
    match lang {
        PromptLanguage::Ja => "この範囲の内容を確認してください"@,
        PromptLanguage::Zh => "请查看这个区域中的内容"@,
        PromptLanguage::Ko => "이 영역의 내용을 확인해 주세요"@,
        PromptLanguage::De => "prüfe den Inhalt in diesem Bereich"@,
        PromptLanguage::Es => "revisa el contenido dentro de esta región"@,
        PromptLanguage::En => "review the contents inside this region"@,
    }
}

fn default_rect_note_str(lang: PromptLanguage) -> (r: &'static str)
    ensures
        r@ == default_rect_note(lang),
{
    match lang {
        PromptLanguage::Ja => "この範囲の内容を確認してください",
        PromptLanguage::Zh => "请查看这个区域中的内容",
        PromptLanguage::Ko => "이 영역의 내용을 확인해 주세요",
        PromptLanguage::De => "prüfe den Inhalt in diesem Bereich",
        PromptLanguage::Es => "revisa el contenido dentro de esta región",
        PromptLanguage::En => "review the contents inside this region",
    }
}

// ---------------------------------------------------------------------------
// Line templates
// ---------------------------------------------------------------------------

/// Text pieces interleaved with arguments: `pieces[0] + args[0] + pieces[1] + ...`.
pub open spec fn fill_template(pieces: Seq<Seq<char>>, args: Seq<Seq<char>>) -> Seq<char>
    decreases args.len(),
{
    if args.len() == 0 || pieces.len() == 0 {
        if pieces.len() == 0 { Seq::empty() } else { pieces[0] }
    } else {
        fill_template(pieces.drop_last(), args.drop_last()) + args.last() + pieces.last()
    }
}

/// The pieces of a pin line: id, area, x %, y %, note go between them.
pub open spec fn pin_template(lang: PromptLanguage) -> Seq<Seq<char>> {
    match lang {
        PromptLanguage::Ja => seq!["- Pin "@, " は "@, " にあります（左から "@, "%、上から "@, "%）。"@, "。"@],
        PromptLanguage::Zh => seq!["- Pin "@, " 位于"@, "（距左侧 "@, "%，距顶部 "@, "%）："@, "。"@],
        PromptLanguage::Ko => seq!["- Pin "@, " 는 "@, "에 있습니다 (왼쪽에서 "@, "%, 위에서 "@, "%). "@, "."@],
        PromptLanguage::De => seq!["- Pin "@, " befindet sich bei "@, " ("@, "% von links, "@, "% von oben): "@, "."@],
        PromptLanguage::Es => seq!["- El pin "@, " está en "@, " ("@, "% desde la izquierda y "@, "% desde arriba): "@, "."@],
        PromptLanguage::En => seq!["- Pin "@, " at "@, " ("@, "% from the left, "@, "% from the top): "@, "."@],
    }
}

/// The pieces of a rectangle line: id, area, x1, x2, y1, y2, note go between them.
pub open spec fn rect_template(lang: PromptLanguage) -> Seq<Seq<char>> {
    match lang {
        PromptLanguage::Ja => seq!["- Rectangle "@, " は "@, " 周辺で、範囲は x="@, "%-"@, "%、y="@, "%-"@, "% です。"@, "。"@],
        PromptLanguage::Zh => seq!["- Rectangle "@, " 位于"@, "附近，范围为 x="@, "%-"@, "%、y="@, "%-"@, "%："@, "。"@],
        PromptLanguage::Ko => seq!["- Rectangle "@, " 는 "@, " 주변이며 범위는 x="@, "%-"@, "%, y="@, "%-"@, "% 입니다. "@, "."@],
        PromptLanguage::De => seq!["- Rechteck "@, " liegt bei "@, " und deckt x="@, "%-"@, "%, y="@, "%-"@, "% ab: "@, "."@],
        PromptLanguage::Es => seq!["- El rectángulo "@, " está alrededor de "@, " y cubre x="@, "%-"@, "%, y="@, "%-"@, "%: "@, "."@],
        PromptLanguage::En => seq!["- Rectangle "@, " around "@, " spanning x="@, "%-"@, "%, y="@, "%-"@, "%: "@, "."@],
    }
}

fn pin_template_exec(lang: PromptLanguage) -> (r: Vec<&'static str>)
    ensures
        r@.len() == pin_template(lang).len(),
        forall|i: int| 0 <= i < r@.len() ==> #[trigger] r@[i]@ == pin_template(lang)[i],
{
    let v = match lang {
        PromptLanguage::Ja => vec!["- Pin ", " は ", " にあります（左から ", "%、上から ", "%）。", "。"],
        PromptLanguage::Zh => vec!["- Pin ", " 位于", "（距左侧 ", "%，距顶部 ", "%）：", "。"],
        PromptLanguage::Ko => vec!["- Pin ", " 는 ", "에 있습니다 (왼쪽에서 ", "%, 위에서 ", "%). ", "."],
        PromptLanguage::De => vec!["- Pin ", " befindet sich bei ", " (", "% von links, ", "% von oben): ", "."],
        PromptLanguage::Es => vec!["- El pin ", " está en ", " (", "% desde la izquierda y ", "% desde arriba): ", "."],
        PromptLanguage::En => vec!["- Pin ", " at ", " (", "% from the left, ", "% from the top): ", "."],
    };
    v
}

fn rect_template_exec(lang: PromptLanguage) -> (r: Vec<&'static str>)
    ensures
        r@.len() == rect_template(lang).len(),
        forall|i: int| 0 <= i < r@.len() ==> #[trigger] r@[i]@ == rect_template(lang)[i],
{
    let v = match lang {
        PromptLanguage::Ja => vec!["- Rectangle ", " は ", " 周辺で、範囲は x=", "%-", "%、y=", "%-", "% です。", "。"],
        PromptLanguage::Zh => vec!["- Rectangle ", " 位于", "附近，范围为 x=", "%-", "%、y=", "%-", "%：", "。"],
        PromptLanguage::Ko => vec!["- Rectangle ", " 는 ", " 주변이며 범위는 x=", "%-", "%, y=", "%-", "% 입니다. ", "."],
        PromptLanguage::De => vec!["- Rechteck ", " liegt bei ", " und deckt x=", "%-", "%, y=", "%-", "% ab: ", "."],
        PromptLanguage::Es => vec!["- El rectángulo ", " está alrededor de ", " y cubre x=", "%-", "%, y=", "%-", "%: ", "."],
        PromptLanguage::En => vec!["- Rectangle ", " around ", " spanning x=", "%-", "%, y=", "%-", "%: ", "."],
    };
    v
}

/// Appends `fill_template(pieces, args)` to `out`.
fn push_template(out: &mut String, pieces: &Vec<&'static str>, args: &Vec<String>)
    requires
        pieces@.len() == args@.len() + 1,
    ensures
        final(out)@ == old(out)@ + fill_template(
            pieces@.map_values(|p: &'static str| p@),
            args@.map_values(|a: String| a@),
        ),
{
    let ghost ps = pieces@.map_values(|p: &'static str| p@);
    let ghost as_ = args@.map_values(|a: String| a@);
    let ghost start = out@;
    out.append(pieces[0]);
    assert(ps.take(1).drop_last().len() == 0);
    assert(fill_template(ps.take(1), as_.take(0)) == ps[0]);
    let mut i: usize = 0;
    while i < args.len()
        invariant
            pieces@.len() == args@.len() + 1,
            ps == pieces@.map_values(|p: &'static str| p@),
            as_ == args@.map_values(|a: String| a@),
            i <= args.len(),
            out@ == start + fill_template(ps.take(i + 1), as_.take(i as int)),
        decreases args.len() - i,
    {
        out.append(args[i].as_str());
        out.append(pieces[i + 1]);
        proof {
            let np = ps.take(i + 2);
            let na = as_.take(i + 1);
            assert(np.drop_last() =~= ps.take(i + 1));
            assert(na.drop_last() =~= as_.take(i as int));
            assert(na.last() == args@[i as int]@);
            assert(np.last() == pieces@[i + 1]@);
            assert(start + fill_template(np, na) =~= start + fill_template(ps.take(i + 1), as_.take(i as int)) + args@[i as int]@ + pieces@[i + 1]@);
        }
        i = i + 1;
    }
    assert(ps.take(args.len() + 1) =~= ps);
    assert(as_.take(args.len() as int) =~= as_);
}

/// A pin's line in the prompt.
pub open spec fn pin_line(
    lang: PromptLanguage,
    id: Seq<char>,
    area: Seq<char>,
    pct_x: int,
    pct_y: int,
    note: Seq<char>,
) -> Seq<char> {
    fill_template(
        pin_template(lang),
        seq![id, area, crate::text::signed_decimal(pct_x), crate::text::signed_decimal(pct_y), note],
    )
}

/// A rectangle's line in the prompt.
pub open spec fn rect_line(
    lang: PromptLanguage,
    id: Seq<char>,
    area: Seq<char>,
    x1: int,
    x2: int,
    y1: int,
    y2: int,
    note: Seq<char>,
) -> Seq<char> {
    fill_template(
        rect_template(lang),
        seq![
            id,
            area,
            crate::text::signed_decimal(x1),
            crate::text::signed_decimal(x2),
            crate::text::signed_decimal(y1),
            crate::text::signed_decimal(y2),
            note,
        ],
    )
}

fn signed_text(n: i32) -> (r: String)
    ensures
        r@ == crate::text::signed_decimal(n as int),
{
    let mut s = String::new();
    push_signed_decimal(&mut s, n as i64);
    assert(Seq::<char>::empty() + crate::text::signed_decimal(n as int) =~= crate::text::signed_decimal(n as int));
    s
}

/// Formats a pin's line.
pub fn format_pin_line(
    lang: PromptLanguage,
    id: &str,
    area: &str,
    pct_x: i32,
    pct_y: i32,
    note: &str,
) -> (r: String)
    ensures
        r@ == pin_line(lang, id@, area@, pct_x as int, pct_y as int, note@),
{
    let pieces = pin_template_exec(lang);
    let args = vec![string_of(id), string_of(area), signed_text(pct_x), signed_text(pct_y), string_of(note)];
    let mut out = String::new();
    push_template(&mut out, &pieces, &args);
    proof {
        assert(pieces@.map_values(|p: &'static str| p@) =~= pin_template(lang));
        assert(args@.map_values(|a: String| a@) =~= seq![id@, area@, crate::text::signed_decimal(pct_x as int), crate::text::signed_decimal(pct_y as int), note@]);
        assert(Seq::<char>::empty() + pin_line(lang, id@, area@, pct_x as int, pct_y as int, note@) =~= pin_line(lang, id@, area@, pct_x as int, pct_y as int, note@));
    }
    out
}

/// Formats a rectangle's line.
pub fn format_rect_line(
    lang: PromptLanguage,
    id: &str,
    area: &str,
    x1: i32,
    x2: i32,
    y1: i32,
    y2: i32,
    note: &str,
) -> (r: String)
    ensures
        r@ == rect_line(lang, id@, area@, x1 as int, x2 as int, y1 as int, y2 as int, note@),
{
    let pieces = rect_template_exec(lang);
    let args = vec![
        string_of(id),
        string_of(area),
        signed_text(x1),
        signed_text(x2),
        signed_text(y1),
        signed_text(y2),
        string_of(note),
    ];
    let mut out = String::new();
    push_template(&mut out, &pieces, &args);
    proof {
        assert(pieces@.map_values(|p: &'static str| p@) =~= rect_template(lang));
        assert(args@.map_values(|a: String| a@) =~= seq![
            id@,
            area@,
            crate::text::signed_decimal(x1 as int),
            crate::text::signed_decimal(x2 as int),
            crate::text::signed_decimal(y1 as int),
            crate::text::signed_decimal(y2 as int),
            note@,
        ]);
        assert(Seq::<char>::empty() + rect_line(lang, id@, area@, x1 as int, x2 as int, y1 as int, y2 as int, note@) =~= rect_line(lang, id@, area@, x1 as int, x2 as int, y1 as int, y2 as int, note@));
    }
    out
}

// ---------------------------------------------------------------------------
// Whole hints
// ---------------------------------------------------------------------------

/// Where a marker is, as the prompt reports it.
#[derive(Debug, Clone)]
pub enum HintPlacement {
    /// A pin at `pct_x`% from the left and `pct_y`% from the top.
    Pin { pct_x: i32, pct_y: i32 },
    /// A rectangle spanning `x1..x2`% horizontally and `y1..y2`% vertically.
    Rectangle { x1: i32, x2: i32, y1: i32, y2: i32 },
}

/// One marker of a prompt hint: its label, placement, optional note, and
/// the thirds of the image its centre falls in.
#[derive(Debug, Clone)]
pub struct HintMarker {
    pub id: String,
    pub placement: HintPlacement,
    pub note: Option<String>,
    pub vertical: VerticalBand,
    pub horizontal: HorizontalBand,
}

/// The line a marker contributes to the prompt.
pub open spec fn marker_line(m: HintMarker, lang: PromptLanguage) -> Seq<char> {
    let area = region_label(lang, m.vertical, m.horizontal);
    match m.placement {
        HintPlacement::Pin { pct_x, pct_y } => pin_line(
            lang,
            m.id@,
            area,
            pct_x as int,
            pct_y as int,
            match m.note {
                Some(n) => n@,
                None => default_pin_note(lang),
            },
        ),
        HintPlacement::Rectangle { x1, x2, y1, y2 } => rect_line(
            lang,
            m.id@,
            area,
            x1 as int,
            x2 as int,
            y1 as int,
            y2 as int,
            match m.note {
                Some(n) => n@,
                None => default_rect_note(lang),
            },
        ),
    }
}

/// A rectangle marker's line gives, in this order, its id, its area, its
/// horizontal range `x1`..`x2` and its vertical range `y1`..`y2` (in percent),
/// then its note (or the default note): in English, "- Rectangle <id> around
/// <area> spanning x=<x1>%-<x2>%, y=<y1>%-<y2>%: <note>.".
pub proof fn lemma_rectangle_line_text(m: HintMarker, lang: PromptLanguage, x1: i32, x2: i32, y1: i32, y2: i32)
    requires
        m.placement == (HintPlacement::Rectangle { x1, x2, y1, y2 }),
    ensures
        ({
            let id = m.id@;
            let area = region_label(lang, m.vertical, m.horizontal);
            let note = match m.note {
                Some(n) => n@,
                None => default_rect_note(lang),
            };
            marker_line(m, lang) == match lang {
                PromptLanguage::En => "- Rectangle "@ + id + " around "@ + area + " spanning x="@ + signed_decimal(x1 as int) + "%-"@ + signed_decimal(x2 as int) + "%, y="@ + signed_decimal(y1 as int) + "%-"@ + signed_decimal(y2 as int) + "%: "@ + note + "."@,
                PromptLanguage::Ja => "- Rectangle "@ + id + " は "@ + area + " 周辺で、範囲は x="@ + signed_decimal(x1 as int) + "%-"@ + signed_decimal(x2 as int) + "%、y="@ + signed_decimal(y1 as int) + "%-"@ + signed_decimal(y2 as int) + "% です。"@ + note + "。"@,
                PromptLanguage::Zh => "- Rectangle "@ + id + " 位于"@ + area + "附近，范围为 x="@ + signed_decimal(x1 as int) + "%-"@ + signed_decimal(x2 as int) + "%、y="@ + signed_decimal(y1 as int) + "%-"@ + signed_decimal(y2 as int) + "%："@ + note + "。"@,
                PromptLanguage::Ko => "- Rectangle "@ + id + " 는 "@ + area + " 주변이며 범위는 x="@ + signed_decimal(x1 as int) + "%-"@ + signed_decimal(x2 as int) + "%, y="@ + signed_decimal(y1 as int) + "%-"@ + signed_decimal(y2 as int) + "% 입니다. "@ + note + "."@,
                PromptLanguage::De => "- Rechteck "@ + id + " liegt bei "@ + area + " und deckt x="@ + signed_decimal(x1 as int) + "%-"@ + signed_decimal(x2 as int) + "%, y="@ + signed_decimal(y1 as int) + "%-"@ + signed_decimal(y2 as int) + "% ab: "@ + note + "."@,
                PromptLanguage::Es => "- El rectángulo "@ + id + " está alrededor de "@ + area + " y cubre x="@ + signed_decimal(x1 as int) + "%-"@ + signed_decimal(x2 as int) + "%, y="@ + signed_decimal(y1 as int) + "%-"@ + signed_decimal(y2 as int) + "%: "@ + note + "."@,
            }
        }),
{
    reveal_with_fuel(fill_template, 8);
    let id = m.id@;
    let area = region_label(lang, m.vertical, m.horizontal);
    let note = match m.note {
        Some(n) => n@,
        None => default_rect_note(lang),
    };
    let args = seq![id, area, signed_decimal(x1 as int), signed_decimal(x2 as int), signed_decimal(y1 as int), signed_decimal(y2 as int), note];
    let pieces = rect_template(lang);
    assert(marker_line(m, lang) == fill_template(pieces, args));
    assert(fill_template(pieces, args) =~= pieces[0] + args[0] + pieces[1] + args[1] + pieces[2] + args[2] + pieces[3] + args[3] + pieces[4] + args[4] + pieces[5] + args[5] + pieces[6] + args[6] + pieces[7]);
}

/// A pin marker's line gives, in this order, its id, its area, its
/// horizontal position `pct_x` and its vertical position `pct_y` (in
/// percent), then its note (or the default note): in English,
/// "- Pin <id> at <area> (<x>% from the left, <y>% from the top): <note>.".
pub proof fn lemma_pin_line_text(m: HintMarker, lang: PromptLanguage, pct_x: i32, pct_y: i32)
    requires
        m.placement == (HintPlacement::Pin { pct_x, pct_y }),
    ensures
        ({
            let id = m.id@;
            let area = region_label(lang, m.vertical, m.horizontal);
            let note = match m.note {
                Some(n) => n@,
                None => default_pin_note(lang),
            };
            marker_line(m, lang) == match lang {
                PromptLanguage::En => "- Pin "@ + id + " at "@ + area + " ("@ + signed_decimal(pct_x as int) + "% from the left, "@ + signed_decimal(pct_y as int) + "% from the top): "@ + note + "."@,
                PromptLanguage::Ja => "- Pin "@ + id + " は "@ + area + " にあります（左から "@ + signed_decimal(pct_x as int) + "%、上から "@ + signed_decimal(pct_y as int) + "%）。"@ + note + "。"@,
                PromptLanguage::Zh => "- Pin "@ + id + " 位于"@ + area + "（距左侧 "@ + signed_decimal(pct_x as int) + "%，距顶部 "@ + signed_decimal(pct_y as int) + "%）："@ + note + "。"@,
                PromptLanguage::Ko => "- Pin "@ + id + " 는 "@ + area + "에 있습니다 (왼쪽에서 "@ + signed_decimal(pct_x as int) + "%, 위에서 "@ + signed_decimal(pct_y as int) + "%). "@ + note + "."@,
                PromptLanguage::De => "- Pin "@ + id + " befindet sich bei "@ + area + " ("@ + signed_decimal(pct_x as int) + "% von links, "@ + signed_decimal(pct_y as int) + "% von oben): "@ + note + "."@,
                PromptLanguage::Es => "- El pin "@ + id + " está en "@ + area + " ("@ + signed_decimal(pct_x as int) + "% desde la izquierda y "@ + signed_decimal(pct_y as int) + "% desde arriba): "@ + note + "."@,
            }
        }),
{
    reveal_with_fuel(fill_template, 6);
    let id = m.id@;
    let area = region_label(lang, m.vertical, m.horizontal);
    let note = match m.note {
        Some(n) => n@,
        None => default_pin_note(lang),
    };
    let args = seq![id, area, signed_decimal(pct_x as int), signed_decimal(pct_y as int), note];
    let pieces = pin_template(lang);
    assert(marker_line(m, lang) == fill_template(pieces, args));
    assert(fill_template(pieces, args) =~= pieces[0] + args[0] + pieces[1] + args[1] + pieces[2] + args[2] + pieces[3] + args[3] + pieces[4] + args[4] + pieces[5]);
}

/// Lines joined with `\n`.
pub open spec fn join_lines(lines: Seq<Seq<char>>) -> Seq<char>
    decreases lines.len(),
{
    if lines.len() == 0 {
        Seq::empty()
    } else if lines.len() == 1 {
        lines[0]
    } else {
        join_lines(lines.drop_last()) + "\n"@ + lines.last()
    }
}

/// The lines of a hint: the intro, then one line per marker in order.
pub open spec fn hint_lines(markers: Seq<HintMarker>, lang: PromptLanguage) -> Seq<Seq<char>> {
    seq![prompt_intro(lang)] + markers.map_values(|m: HintMarker| marker_line(m, lang))
}

/// The prompt hint for markers in a language: none without markers.
pub open spec fn spec_prompt_hint(markers: Seq<HintMarker>, language: Seq<char>) -> Option<Seq<char>> {
    if markers.len() == 0 {
        None
    } else {
        Some(join_lines(hint_lines(markers, prompt_language(language))))
    }
}

fn marker_line_exec(m: &HintMarker, lang: PromptLanguage) -> (r: String)
    ensures
        r@ == marker_line(*m, lang),
{
    let area = region_label_for_language(m.vertical, m.horizontal, lang);
    match &m.placement {
        HintPlacement::Pin { pct_x, pct_y } => {
            let note: &str = match &m.note {
                Some(n) => n.as_str(),
                None => default_pin_note_str(lang),
            };
            format_pin_line(lang, m.id.as_str(), area, *pct_x, *pct_y, note)
        },
        HintPlacement::Rectangle { x1, x2, y1, y2 } => {
            let note: &str = match &m.note {
                Some(n) => n.as_str(),
                None => default_rect_note_str(lang),
            };
            format_rect_line(lang, m.id.as_str(), area, *x1, *x2, *y1, *y2, note)
        },
    }
}

/// Builds the LLM prompt hint for the markers in the given language: an
/// intro line, then one line per marker giving its label, region,
/// position in percent and note (a default request when it has none).
/// `None` when there are no markers.
pub fn build_llm_prompt_hint_for_language(markers: &[HintMarker], language: &str) -> (r: Option<
    String,
>)
    ensures
        match spec_prompt_hint(markers@, language@) {
            Some(t) => r matches Some(s) && s@ == t,
            None => r is None,
        },
{
    if markers.len() == 0 {
        return None;
    }
    let lang = select_prompt_language(language);
    let ghost lines = hint_lines(markers@, lang);
    let mut out = string_of(prompt_intro_str(lang));
    assert(lines.take(1) =~= seq![prompt_intro(lang)]);
    let mut i: usize = 0;
    while i < markers.len()
        invariant
            i <= markers.len(),
            lines == hint_lines(markers@, lang),
            lines.len() == markers@.len() + 1,
            out@ == join_lines(lines.take(i + 1)),
        decreases markers.len() - i,
    {
        let line = marker_line_exec(&markers[i], lang);
        out.append("\n");
        out.append(line.as_str());
        proof {
            let nl = lines.take(i + 2);
            assert(nl.drop_last() =~= lines.take(i + 1));
            assert(nl.last() == lines[i + 1]);
            assert(lines[i + 1] == marker_line(markers@[i as int], lang));
        }
        i = i + 1;
    }
    assert(lines.take(markers.len() + 1) =~= lines);
    Some(out)
}

/// Builds the prompt hint in English.
pub fn build_llm_prompt_hint(markers: &[HintMarker]) -> (r: Option<String>)
    ensures
        match spec_prompt_hint(markers@, "en"@) {
            Some(t) => r matches Some(s) && s@ == t,
            None => r is None,
        },
{
    build_llm_prompt_hint_for_language(markers, "en")
}

// ---------------------------------------------------------------------------
// Marker labels and notes
// ---------------------------------------------------------------------------

/// The letter for `0..26`.
pub open spec fn alpha_letter(n: nat) -> char {
    ((n + 65) as u32) as char
}

/// Spreadsheet-style labels: `A`..`Z`, then `AA`, `AB`, ... (bijective base 26).
pub open spec fn spec_alpha_id(n: nat) -> Seq<char>
    decreases n,
{
    if n < 26 {
        seq![alpha_letter(n)]
    } else {
        spec_alpha_id((n / 26 - 1) as nat).push(alpha_letter(n % 26))
    }
}

fn push_alpha_id(out: &mut String, n: usize)
    ensures
        final(out)@ == old(out)@ + spec_alpha_id(n as nat),
    decreases n,
{
    let rem = n % 26;
    let letter = ((rem as u8) + 65) as char;
    if n < 26 {
        crate::text::push_char(out, letter);
        assert(old(out)@.push(letter) =~= old(out)@ + seq![alpha_letter(n as nat)]);
    } else {
        push_alpha_id(out, n / 26 - 1);
        crate::text::push_char(out, letter);
        assert(old(out)@ + spec_alpha_id(n as nat) =~= (old(out)@ + spec_alpha_id((n / 26 - 1) as nat)).push(alpha_letter((n % 26) as nat)));
    }
}

/// The label of the rectangle with this index: `A`..`Z`, `AA`, `AB`, ...
pub fn alpha_id(index: usize) -> (r: String)
    ensures
        r@ == spec_alpha_id(index as nat),
{
    let mut out = String::new();
    push_alpha_id(&mut out, index);
    assert(Seq::<char>::empty() + spec_alpha_id(index as nat) =~= spec_alpha_id(index as nat));
    out
}

/// The label of the pin with this index: `1`, `2`, ...
pub fn pin_id(index: usize) -> (r: String)
    requires
        index < usize::MAX,
    ensures
        r@ == crate::text::decimal(index as nat + 1),
{
    let mut out = String::new();
    push_decimal(&mut out, (index + 1) as u64);
    assert(Seq::<char>::empty() + crate::text::decimal(index as nat + 1) =~= crate::text::decimal(index as nat + 1));
    out
}

/// A note as stored: trimmed, and dropped when nothing is left.
pub open spec fn spec_sanitize_note(note: Option<Seq<char>>) -> Option<Seq<char>> {
    match note {
        Some(n) => if crate::text::trim(n).len() == 0 {
            None
        } else {
            Some(crate::text::trim(n))
        },
        None => None,
    }
}

/// Trims a note and drops it when nothing is left.
pub fn sanitize_note(note: Option<String>) -> (r: Option<String>)
    ensures
        match r {
            Some(s) => spec_sanitize_note(match note { Some(n) => Some(n@), None => None }) == Some(s@),
            None => spec_sanitize_note(match note { Some(n) => Some(n@), None => None }) is None,
        },
{
    match note {
        None => None,
        Some(value) => {
            let chars = chars_of(value.as_str());
            let trimmed = trim_chars(&chars);
            if trimmed.len() == 0 {
                None
            } else {
                Some(string_from_chars(&trimmed))
            }
        },
    }
}

} // verus!

//! The registry of component pages: one page per public component of the
//! pre-styled UI library, each under `/themes/<kebab-name>/`.
use vstd::prelude::*;
use crate::redirect::safe_page_path;

verus! {

/// The index page of the component pages; it has no generated content of
/// its own and is not in the registry.
pub const PAGE_PATH: &'static str = "/themes/";

/// Output path of the component stylesheet, relative to the output
/// directory.
pub const STYLESHEET_REL_PATH: &'static str = "assets/pre-styled-ui.css";

/// The registered component page paths, in registration order.
pub open spec fn component_paths() -> Seq<Seq<char>> {
    seq![
        "/themes/button/"@,
        "/themes/download-trigger/"@,
        "/themes/badge/"@,
        "/themes/spinner/"@,
        "/themes/skeleton/"@,
        "/themes/heading/"@,
        "/themes/text/"@,
        "/themes/em/"@,
        "/themes/mark/"@,
        "/themes/quote/"@,
        "/themes/strong/"@,
        "/themes/blockquote/"@,
        "/themes/list/"@,
        "/themes/separator/"@,
        "/themes/highlight/"@,
        "/themes/alert/"@,
        "/themes/callout/"@,
        "/themes/card/"@,
        "/themes/tabs/"@,
        "/themes/accordion/"@,
        "/themes/dialog/"@,
        "/themes/drawer/"@,
        "/themes/menu/"@,
        "/themes/select/"@,
        "/themes/listbox/"@,
        "/themes/combobox/"@,
        "/themes/popover/"@,
        "/themes/floating-panel/"@,
        "/themes/tooltip/"@,
        "/themes/hover-card/"@,
        "/themes/toggle-tip/"@,
        "/themes/switch/"@,
        "/themes/radio-group/"@,
        "/themes/avatar/"@,
        "/themes/checkbox/"@,
        "/themes/input/"@,
        "/themes/textarea/"@,
        "/themes/native-select/"@,
        "/themes/number-input/"@,
        "/themes/password-input/"@,
        "/themes/tags-input/"@,
        "/themes/file-upload/"@,
        "/themes/rating-group/"@,
        "/themes/slider/"@,
        "/themes/editable/"@,
        "/themes/segment-group/"@,
        "/themes/toggle/"@,
        "/themes/toggle-group/"@,
        "/themes/carousel/"@,
        "/themes/tree-view/"@,
        "/themes/json-tree-view/"@,
        "/themes/pagination/"@,
        "/themes/steps/"@,
        "/themes/tour/"@,
        "/themes/splitter/"@,
        "/themes/checkbox-card/"@,
        "/themes/checkbox-group/"@,
        "/themes/radio-card/"@,
        "/themes/breadcrumb/"@,
        "/themes/action-bar/"@,
        "/themes/toast/"@,
        "/themes/progress/"@,
        "/themes/image/"@,
        "/themes/icon/"@,
        "/themes/tag/"@,
        "/themes/kbd/"@,
        "/themes/code/"@,
        "/themes/color-swatch/"@,
        "/themes/color-picker/"@,
        "/themes/status/"@,
        "/themes/empty-state/"@,
        "/themes/visually-hidden/"@,
        "/themes/qr-code/"@,
        "/themes/table/"@,
        "/themes/data-list/"@,
        "/themes/stat/"@,
        "/themes/timeline/"@,
        "/themes/marquee/"@,
        "/themes/scroll-area/"@,
        "/themes/calendar/"@,
        "/themes/date-picker/"@,
        "/themes/date-input/"@,
        "/themes/timer/"@,
        "/themes/charts/"@,
        "/themes/bar-chart/"@,
        "/themes/bar-list/"@,
        "/themes/bar-segment/"@,
        "/themes/line-chart/"@,
        "/themes/area-chart/"@,
        "/themes/sparkline/"@,
        "/themes/pie-chart/"@,
        "/themes/donut-chart/"@,
        "/themes/scatter-chart/"@,
        "/themes/radar-chart/"@,
        "/themes/toolbar/"@,
        "/themes/menubar/"@,
        "/themes/navigation-menu/"@,
        "/themes/tab-nav/"@,
        "/themes/link/"@,
        "/themes/link-overlay/"@,
        "/themes/nav-list/"@,
    ]
}

/// `p` is `/themes/<segment>/` for one non-empty segment of ASCII letters,
/// digits, `-` and `_`.
pub open spec fn is_component_path(p: Seq<char>) -> bool {
    &&& p.len() > 9
    &&& p.take(8) == PAGE_PATH@
    &&& safe_page_path(p)
    &&& forall|i: int| 8 <= i < p.len() - 1 ==> #[trigger] p[i] != '/'
}

/// Length and three characters, which tell the registered paths apart.
pub open spec fn path_key(p: Seq<char>) -> (nat, char, char, char) {
    (p.len(), p[8], p[9], p[p.len() - 2])
}

/// Registration index of the path with key `k`.
pub open spec fn index_of_key(k: (nat, char, char, char)) -> int {
    if k == (15nat, 'b', 'u', 'n') {
        0
    } else     if k == (25nat, 'd', 'o', 'r') {
        1
    } else     if k == (14nat, 'b', 'a', 'e') {
        2
    } else     if k == (16nat, 's', 'p', 'r') {
        3
    } else     if k == (17nat, 's', 'k', 'n') {
        4
    } else     if k == (16nat, 'h', 'e', 'g') {
        5
    } else     if k == (13nat, 't', 'e', 't') {
        6
    } else     if k == (11nat, 'e', 'm', 'm') {
        7
    } else     if k == (13nat, 'm', 'a', 'k') {
        8
    } else     if k == (14nat, 'q', 'u', 'e') {
        9
    } else     if k == (15nat, 's', 't', 'g') {
        10
    } else     if k == (19nat, 'b', 'l', 'e') {
        11
    } else     if k == (13nat, 'l', 'i', 't') {
        12
    } else     if k == (18nat, 's', 'e', 'r') {
        13
    } else     if k == (18nat, 'h', 'i', 't') {
        14
    } else     if k == (14nat, 'a', 'l', 't') {
        15
    } else     if k == (16nat, 'c', 'a', 't') {
        16
    } else     if k == (13nat, 'c', 'a', 'd') {
        17
    } else     if k == (13nat, 't', 'a', 's') {
        18
    } else     if k == (18nat, 'a', 'c', 'n') {
        19
    } else     if k == (15nat, 'd', 'i', 'g') {
        20
    } else     if k == (15nat, 'd', 'r', 'r') {
        21
    } else     if k == (13nat, 'm', 'e', 'u') {
        22
    } else     if k == (15nat, 's', 'e', 't') {
        23
    } else     if k == (16nat, 'l', 'i', 'x') {
        24
    } else     if k == (17nat, 'c', 'o', 'x') {
        25
    } else     if k == (16nat, 'p', 'o', 'r') {
        26
    } else     if k == (23nat, 'f', 'l', 'l') {
        27
    } else     if k == (16nat, 't', 'o', 'p') {
        28
    } else     if k == (19nat, 'h', 'o', 'd') {
        29
    } else     if k == (19nat, 't', 'o', 'p') {
        30
    } else     if k == (15nat, 's', 'w', 'h') {
        31
    } else     if k == (20nat, 'r', 'a', 'p') {
        32
    } else     if k == (15nat, 'a', 'v', 'r') {
        33
    } else     if k == (17nat, 'c', 'h', 'x') {
        34
    } else     if k == (14nat, 'i', 'n', 't') {
        35
    } else     if k == (17nat, 't', 'e', 'a') {
        36
    } else     if k == (22nat, 'n', 'a', 't') {
        37
    } else     if k == (21nat, 'n', 'u', 't') {
        38
    } else     if k == (23nat, 'p', 'a', 't') {
        39
    } else     if k == (19nat, 't', 'a', 't') {
        40
    } else     if k == (20nat, 'f', 'i', 'd') {
        41
    } else     if k == (21nat, 'r', 'a', 'p') {
        42
    } else     if k == (15nat, 's', 'l', 'r') {
        43
    } else     if k == (17nat, 'e', 'd', 'e') {
        44
    } else     if k == (22nat, 's', 'e', 'p') {
        45
    } else     if k == (15nat, 't', 'o', 'e') {
        46
    } else     if k == (21nat, 't', 'o', 'p') {
        47
    } else     if k == (17nat, 'c', 'a', 'l') {
        48
    } else     if k == (18nat, 't', 'r', 'w') {
        49
    } else     if k == (23nat, 'j', 's', 'w') {
        50
    } else     if k == (19nat, 'p', 'a', 'n') {
        51
    } else     if k == (14nat, 's', 't', 's') {
        52
    } else     if k == (13nat, 't', 'o', 'r') {
        53
    } else     if k == (17nat, 's', 'p', 'r') {
        54
    } else     if k == (22nat, 'c', 'h', 'd') {
        55
    } else     if k == (23nat, 'c', 'h', 'p') {
        56
    } else     if k == (19nat, 'r', 'a', 'd') {
        57
    } else     if k == (19nat, 'b', 'r', 'b') {
        58
    } else     if k == (19nat, 'a', 'c', 'r') {
        59
    } else     if k == (14nat, 't', 'o', 't') {
        60
    } else     if k == (17nat, 'p', 'r', 's') {
        61
    } else     if k == (14nat, 'i', 'm', 'e') {
        62
    } else     if k == (13nat, 'i', 'c', 'n') {
        63
    } else     if k == (12nat, 't', 'a', 'g') {
        64
    } else     if k == (12nat, 'k', 'b', 'd') {
        65
    } else     if k == (13nat, 'c', 'o', 'e') {
        66
    } else     if k == (21nat, 'c', 'o', 'h') {
        67
    } else     if k == (21nat, 'c', 'o', 'r') {
        68
    } else     if k == (15nat, 's', 't', 's') {
        69
    } else     if k == (20nat, 'e', 'm', 'e') {
        70
    } else     if k == (24nat, 'v', 'i', 'n') {
        71
    } else     if k == (16nat, 'q', 'r', 'e') {
        72
    } else     if k == (14nat, 't', 'a', 'e') {
        73
    } else     if k == (18nat, 'd', 'a', 't') {
        74
    } else     if k == (13nat, 's', 't', 't') {
        75
    } else     if k == (17nat, 't', 'i', 'e') {
        76
    } else     if k == (16nat, 'm', 'a', 'e') {
        77
    } else     if k == (20nat, 's', 'c', 'a') {
        78
    } else     if k == (17nat, 'c', 'a', 'r') {
        79
    } else     if k == (20nat, 'd', 'a', 'r') {
        80
    } else     if k == (19nat, 'd', 'a', 't') {
        81
    } else     if k == (14nat, 't', 'i', 'r') {
        82
    } else     if k == (15nat, 'c', 'h', 's') {
        83
    } else     if k == (18nat, 'b', 'a', 't') {
        84
    } else     if k == (17nat, 'b', 'a', 't') {
        85
    } else     if k == (20nat, 'b', 'a', 't') {
        86
    } else     if k == (19nat, 'l', 'i', 't') {
        87
    } else     if k == (19nat, 'a', 'r', 't') {
        88
    } else     if k == (18nat, 's', 'p', 'e') {
        89
    } else     if k == (18nat, 'p', 'i', 't') {
        90
    } else     if k == (20nat, 'd', 'o', 't') {
        91
    } else     if k == (22nat, 's', 'c', 't') {
        92
    } else     if k == (20nat, 'r', 'a', 't') {
        93
    } else     if k == (16nat, 't', 'o', 'r') {
        94
    } else     if k == (16nat, 'm', 'e', 'r') {
        95
    } else     if k == (24nat, 'n', 'a', 'u') {
        96
    } else     if k == (16nat, 't', 'a', 'v') {
        97
    } else     if k == (13nat, 'l', 'i', 'k') {
        98
    } else     if k == (21nat, 'l', 'i', 'y') {
        99
    } else     if k == (17nat, 'n', 'a', 't') {
        100
    } else {
        -1
    }
}

/// Law: every registered path is a component path under [`PAGE_PATH`],
/// and no path is registered twice.
pub proof fn lemma_component_paths_well_formed()
    ensures
        component_paths().len() == 101,
        forall|i: int| 0 <= i < component_paths().len() ==> is_component_path(#[trigger] component_paths()[i]),
        forall|i: int, j: int| 0 <= i < j < component_paths().len() ==> #[trigger] component_paths()[i] != #[trigger] component_paths()[j],
{
    reveal_strlit("/themes/");
    reveal_strlit("/themes/button/");
    reveal_strlit("/themes/download-trigger/");
    reveal_strlit("/themes/badge/");
    reveal_strlit("/themes/spinner/");
    reveal_strlit("/themes/skeleton/");
    reveal_strlit("/themes/heading/");
    reveal_strlit("/themes/text/");
    reveal_strlit("/themes/em/");
    reveal_strlit("/themes/mark/");
    reveal_strlit("/themes/quote/");
    reveal_strlit("/themes/strong/");
    reveal_strlit("/themes/blockquote/");
    reveal_strlit("/themes/list/");
    reveal_strlit("/themes/separator/");
    reveal_strlit("/themes/highlight/");
    reveal_strlit("/themes/alert/");
    reveal_strlit("/themes/callout/");
    reveal_strlit("/themes/card/");
    reveal_strlit("/themes/tabs/");
    reveal_strlit("/themes/accordion/");
    reveal_strlit("/themes/dialog/");
    reveal_strlit("/themes/drawer/");
    reveal_strlit("/themes/menu/");
    reveal_strlit("/themes/select/");
    reveal_strlit("/themes/listbox/");
    reveal_strlit("/themes/combobox/");
    reveal_strlit("/themes/popover/");
    reveal_strlit("/themes/floating-panel/");
    reveal_strlit("/themes/tooltip/");
    reveal_strlit("/themes/hover-card/");
    reveal_strlit("/themes/toggle-tip/");
    reveal_strlit("/themes/switch/");
    reveal_strlit("/themes/radio-group/");
    reveal_strlit("/themes/avatar/");
    reveal_strlit("/themes/checkbox/");
    reveal_strlit("/themes/input/");
    reveal_strlit("/themes/textarea/");
    reveal_strlit("/themes/native-select/");
    reveal_strlit("/themes/number-input/");
    reveal_strlit("/themes/password-input/");
    reveal_strlit("/themes/tags-input/");
    reveal_strlit("/themes/file-upload/");
    reveal_strlit("/themes/rating-group/");
    reveal_strlit("/themes/slider/");
    reveal_strlit("/themes/editable/");
    reveal_strlit("/themes/segment-group/");
    reveal_strlit("/themes/toggle/");
    reveal_strlit("/themes/toggle-group/");
    reveal_strlit("/themes/carousel/");
    reveal_strlit("/themes/tree-view/");
    reveal_strlit("/themes/json-tree-view/");
    reveal_strlit("/themes/pagination/");
    reveal_strlit("/themes/steps/");
    reveal_strlit("/themes/tour/");
    reveal_strlit("/themes/splitter/");
    reveal_strlit("/themes/checkbox-card/");
    reveal_strlit("/themes/checkbox-group/");
    reveal_strlit("/themes/radio-card/");
    reveal_strlit("/themes/breadcrumb/");
    reveal_strlit("/themes/action-bar/");
    reveal_strlit("/themes/toast/");
    reveal_strlit("/themes/progress/");
    reveal_strlit("/themes/image/");
    reveal_strlit("/themes/icon/");
    reveal_strlit("/themes/tag/");
    reveal_strlit("/themes/kbd/");
    reveal_strlit("/themes/code/");
    reveal_strlit("/themes/color-swatch/");
    reveal_strlit("/themes/color-picker/");
    reveal_strlit("/themes/status/");
    reveal_strlit("/themes/empty-state/");
    reveal_strlit("/themes/visually-hidden/");
    reveal_strlit("/themes/qr-code/");
    reveal_strlit("/themes/table/");
    reveal_strlit("/themes/data-list/");
    reveal_strlit("/themes/stat/");
    reveal_strlit("/themes/timeline/");
    reveal_strlit("/themes/marquee/");
    reveal_strlit("/themes/scroll-area/");
    reveal_strlit("/themes/calendar/");
    reveal_strlit("/themes/date-picker/");
    reveal_strlit("/themes/date-input/");
    reveal_strlit("/themes/timer/");
    reveal_strlit("/themes/charts/");
    reveal_strlit("/themes/bar-chart/");
    reveal_strlit("/themes/bar-list/");
    reveal_strlit("/themes/bar-segment/");
    reveal_strlit("/themes/line-chart/");
    reveal_strlit("/themes/area-chart/");
    reveal_strlit("/themes/sparkline/");
    reveal_strlit("/themes/pie-chart/");
    reveal_strlit("/themes/donut-chart/");
    reveal_strlit("/themes/scatter-chart/");
    reveal_strlit("/themes/radar-chart/");
    reveal_strlit("/themes/toolbar/");
    reveal_strlit("/themes/menubar/");
    reveal_strlit("/themes/navigation-menu/");
    reveal_strlit("/themes/tab-nav/");
    reveal_strlit("/themes/link/");
    reveal_strlit("/themes/link-overlay/");
    reveal_strlit("/themes/nav-list/");
    let ps = component_paths();
    assert forall|i: int| 0 <= i < ps.len() implies is_component_path(#[trigger] ps[i]) by {
        assert(ps[i].take(8) =~= PAGE_PATH@);
    }
    assert forall|i: int| 0 <= i < ps.len() implies index_of_key(path_key(#[trigger] ps[i])) == i by {}
    assert forall|i: int, j: int| 0 <= i < j < ps.len() implies #[trigger] ps[i] != #[trigger] ps[j] by {
        assert(index_of_key(path_key(ps[i])) == i);
        assert(index_of_key(path_key(ps[j])) == j);
    }
}

/// The registered component page paths, in registration order.
pub fn component_page_paths() -> (r: Vec<&'static str>)
    ensures
        r@.map_values(|p: &'static str| p@) == component_paths(),
        r@.len() == 101,
        forall|i: int| 0 <= i < r@.len() ==> is_component_path(#[trigger] r@[i]@),
        forall|i: int, j: int| 0 <= i < j < r@.len() ==> #[trigger] r@[i]@ != #[trigger] r@[j]@,
{
    proof {
        lemma_component_paths_well_formed();
    }
    let r = vec![
        "/themes/button/",
        "/themes/download-trigger/",
        "/themes/badge/",
        "/themes/spinner/",
        "/themes/skeleton/",
        "/themes/heading/",
        "/themes/text/",
        "/themes/em/",
        "/themes/mark/",
        "/themes/quote/",
        "/themes/strong/",
        "/themes/blockquote/",
        "/themes/list/",
        "/themes/separator/",
        "/themes/highlight/",
        "/themes/alert/",
        "/themes/callout/",
        "/themes/card/",
        "/themes/tabs/",
        "/themes/accordion/",
        "/themes/dialog/",
        "/themes/drawer/",
        "/themes/menu/",
        "/themes/select/",
        "/themes/listbox/",
        "/themes/combobox/",
        "/themes/popover/",
        "/themes/floating-panel/",
        "/themes/tooltip/",
        "/themes/hover-card/",
        "/themes/toggle-tip/",
        "/themes/switch/",
        "/themes/radio-group/",
        "/themes/avatar/",
        "/themes/checkbox/",
        "/themes/input/",
        "/themes/textarea/",
        "/themes/native-select/",
        "/themes/number-input/",
        "/themes/password-input/",
        "/themes/tags-input/",
        "/themes/file-upload/",
        "/themes/rating-group/",
        "/themes/slider/",
        "/themes/editable/",
        "/themes/segment-group/",
        "/themes/toggle/",
        "/themes/toggle-group/",
        "/themes/carousel/",
        "/themes/tree-view/",
        "/themes/json-tree-view/",
        "/themes/pagination/",
        "/themes/steps/",
        "/themes/tour/",
        "/themes/splitter/",
        "/themes/checkbox-card/",
        "/themes/checkbox-group/",
        "/themes/radio-card/",
        "/themes/breadcrumb/",
        "/themes/action-bar/",
        "/themes/toast/",
        "/themes/progress/",
        "/themes/image/",
        "/themes/icon/",
        "/themes/tag/",
        "/themes/kbd/",
        "/themes/code/",
        "/themes/color-swatch/",
        "/themes/color-picker/",
        "/themes/status/",
        "/themes/empty-state/",
        "/themes/visually-hidden/",
        "/themes/qr-code/",
        "/themes/table/",
        "/themes/data-list/",
        "/themes/stat/",
        "/themes/timeline/",
        "/themes/marquee/",
        "/themes/scroll-area/",
        "/themes/calendar/",
        "/themes/date-picker/",
        "/themes/date-input/",
        "/themes/timer/",
        "/themes/charts/",
        "/themes/bar-chart/",
        "/themes/bar-list/",
        "/themes/bar-segment/",
        "/themes/line-chart/",
        "/themes/area-chart/",
        "/themes/sparkline/",
        "/themes/pie-chart/",
        "/themes/donut-chart/",
        "/themes/scatter-chart/",
        "/themes/radar-chart/",
        "/themes/toolbar/",
        "/themes/menubar/",
        "/themes/navigation-menu/",
        "/themes/tab-nav/",
        "/themes/link/",
        "/themes/link-overlay/",
        "/themes/nav-list/",
    ];
    assert(r@.map_values(|p: &'static str| p@) =~= component_paths());
    assert forall|i: int| 0 <= i < r@.len() implies r@[i]@ == component_paths()[i] by {
        assert(r@.map_values(|p: &'static str| p@)[i] == r@[i]@);
    }
    r
}

} // verus!

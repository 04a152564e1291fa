//! The structural stylesheet of the site frame: header, three-column grid,
//! sidebar, table of contents and pager. It is written mobile-first: the
//! base rules apply below 768px, then `@media (min-width: 768px)` and
//! `@media (min-width: 1200px)` widen the layout, in that order. Colours,
//! spacing and fonts come from the `--fandhe-*` theme tokens; the rules name
//! no colour of their own and no external resource.
use vstd::prelude::*;
use crate::text::push_str_chars;

verus! {

/// Output path of the site stylesheet, relative to the output directory.
pub const STYLESHEET_REL_PATH: &'static str = "assets/site.css";

/// The structural rules, in order, cut into parts.
pub const STRUCTURAL_PART_1: &'static str = "*,\n*::before,\n*::after {\nbox-sizing: border-box;\n}\n\nhtml {\ncolor-scheme: light dark;\n}\n\nbody {\nmargin: 0;\nbackground: var(--fandhe-color-bg);\ncolor: var(--fandhe-color-fg);\nfont-family: system-ui, -apple-system, \"Segoe UI\", \"Hiragino Sans\",\n\"Noto Sans CJK JP\", \"Yu Gothic\", sans-serif;\nfont-size: 15.5px;\nline-height: 1.65;\n-webkit-font-smoothing: antialiased;\n}\n\n/* ---- ヘッダー ---- */\n\n.docs-header {\nposition: sticky;\ntop: 0;\nz-index: 10;\ndisplay: flex;\nalign-items: center;\nheight: var(--fandhe-space-docs-header-height);\npadding: 0;\nborder-bottom: 1px solid var(--fandhe-color-border);\nbackground: var(--fandhe-color-bg);\n}\n\n/*\n* ヘッダー内側の計測枠（イシュー #949）。`.docs-header` 自体は罫線\n* （border-bottom）を全幅に伸ばすため padding を持たず、ブランド・ヘッダー\n* ナビ・アクション群（`crate::layout::docs_page_with_assets` が組み立てる\n* `div.docs-header-inner` の子）はすべてこの内側コンテナへ収める。\n* `.docs-container`（下記）と同じ `--fandhe-space-docs-container-width` を\n* `max-width` に、`margin: 0 auto` を共有することで、ヘッダー左端と\n* 3 カラム grid の左端が同一の計測枠に載る。\n*/\n.docs-header-inner {\ndisplay: flex;\nalign-items: center;\nwidth: 100%;\nheight: 100%;\nmin-width: 0;\nmax-width: var(--fandhe-space-docs-container-width);\nmargin: 0 auto;\npadding: 0 var(--fandhe-space-docs-gutter);\n}\n\n/*\n* ブランド文字の左端をサイドバーのリンク文字左端に揃える（イシュー #949）。\n* サイドバーのリンク文字左端は `.docs-sidebar` の padding（gutter）+\n* `.docs-sidebar nav.sidebar a` の透明 `border-left`（2px）+ リンク自身の\n* padding（0.5rem）の総和で決まる。`.docs-header-inner` の padding は\n* gutter で揃っているため、ここでは残りの内訳（2px + 0.5rem）だけを\n* `.docs-brand` の padding-left へ足し込む。\n*/\n";

pub const STRUCTURAL_PART_2: &'static str = ".docs-brand {\npadding: 0.32rem 0.5rem 0.32rem calc(0.5rem + 2px);\nfont-weight: 600;\nfont-size: 0.95rem;\nletter-spacing: -0.01em;\ncolor: var(--fandhe-color-fg);\ntext-decoration: none;\n}\n\n/*\n* ---- ヘッダーナビ（セクション別ドロップダウン、イシュー #908） ----\n*\n* 基底（768px 未満）では非表示（`min-width: 768px` の @media ブロックで表示に\n* 切り替える）。モバイルは既存のサイドバー折りたたみトグルがナビ手段を\n* 提供する（`.docs-sidebar-toggle-label` 参照）。ドロップダウンの開閉は JS を\n* 使わず `:hover`/`:focus-within` のみで行う（`crate::nav::header_nav` の\n* rustdoc「イシュータイトルとの差分」参照）。\n*/\n.docs-header-nav {\ndisplay: none;\n}\n\n.docs-header-menu {\ndisplay: flex;\nlist-style: none;\nmargin: 0;\npadding: 0;\ngap: 0.25rem;\n}\n\n.docs-header-group {\nposition: relative;\n}\n\n/*\n* トリガーは a 要素（href 属性つき、セクショントップページへの遷移\n* リンク、イシュー #1012）。`crate::nav::header_nav` が\n* `data-scope=\"nav-list\"` を持たない要素として直接組み立てるため、\n* `nav_list::stylesheet()` の `[data-scope=\"nav-list\"][data-part=\"link\"]`\n* （詳細度 0,2,0）は適用されない。よってこの class セレクタ（詳細度 0,1,0）\n* だけで確定させてよく、ドロップダウン内リンク（`.docs-header-dropdown a`）\n* が必要とする `.docs-header nav.docs-header-nav` プレフィックスは不要\n* （#908 Bugbot 指摘の再発防止コメント）。旧 button 要素用の\n* `background: none; border: none; cursor: pointer;` リセットは a 要素では\n* 不要（`cursor: pointer` は `a[href]` の既定）なので削除し、a 要素の既定\n* 下線を抑止する `text-decoration: none` を追加する。\n*/\n.docs-header-trigger {\ndisplay: block;\npadding: 0.4rem 0.6rem;\nborder-radius: 0.4rem;\nfont: inherit;\nfont-size: 0.85rem;\nfont-weight: 500;\ncolor: var(--fandhe-color-fg);\ntext-decoration: none;\n}\n\n.docs-header-trigger:hover {\nbackground: var(--fandhe-color-bg-subtle);\n}\n\n";

pub const STRUCTURAL_PART_3: &'static str = ".docs-header-trigger:focus-visible {\noutline: 2px solid var(--fandhe-color-accent);\noutline-offset: 2px;\n}\n\n/*\n* 現在セクションの表現（イシュー #1012）。ドロップダウン内リンクの\n* `a[aria-current=\"page\"]`（ページ完全一致）とは軸が異なる\n* `[aria-current=\"true\"]` を使うため、同一トークン\n* `--fandhe-color-docs-accent-bg` を再利用しても意味は衝突しない。\n*/\n.docs-header-trigger[aria-current=\"true\"] {\ncolor: var(--fandhe-color-accent);\nbackground: var(--fandhe-color-docs-accent-bg);\n}\n\n/*\n* ---- ヘッダーアクション（GitHub リンク・テーマトグル、イシュー #951） ----\n*\n* `docs-header-nav` の有無に関わらず常に出力される（`crate::layout` 参照）。\n* 基底帯域では `margin-left: auto` で右寄せする。`min-width: 768px` では\n* `docs-header-nav` が存在する構成に限り同要素側も `margin-left: auto` を\n* 持つため、下記 @media ブロックで `.docs-header-nav + .docs-header-actions`\n* （隣接セレクタ）に絞って `docs-header-actions` の margin を打ち消す\n* （`auto` が 2 つ並んで自由空間を分割するのを避ける）。`docs-header-nav`\n* が存在しない構成（`header_nav: None`、例: `docs_page` 単体呼び出し）では\n* この隣接セレクタが不成立のまま基底帯域の `margin-left: auto` が有効で\n* あり続け、`min-width: 768px` 以上でもトレイリングエッジへ配置される\n* （Bugbot 指摘 #951 是正、`crate::layout` の DOM 順序＝ brand →\n* [nav if Some] → actions を前提とする）。\n*/\n.docs-header-actions {\ndisplay: flex;\nalign-items: center;\ngap: 0.5rem;\nmargin-left: auto;\n}\n\n.docs-github-link {\nfont-size: 0.85rem;\ncolor: var(--fandhe-color-fg-muted);\ntext-decoration: none;\npadding: 0.4rem 0.6rem;\nborder-radius: 0.4rem;\n}\n\n.docs-github-link:hover {\ncolor: var(--fandhe-color-fg);\nbackground: var(--fandhe-color-bg-subtle);\n}\n\n.docs-github-link:focus-visible {\noutline: 2px solid var(--fandhe-color-accent);\n";

pub const STRUCTURAL_PART_4: &'static str = "outline-offset: 2px;\n}\n\n.docs-theme-toggle {\ndisplay: block;\nbackground: none;\nborder: none;\ncursor: pointer;\npadding: 0.4rem 0.6rem;\nborder-radius: 0.4rem;\nfont: inherit;\nfont-size: 0.85rem;\nfont-weight: 500;\ncolor: var(--fandhe-color-fg);\n}\n\n.docs-theme-toggle:hover {\nbackground: var(--fandhe-color-bg-subtle);\n}\n\n.docs-theme-toggle:focus-visible {\noutline: 2px solid var(--fandhe-color-accent);\noutline-offset: 2px;\n}\n\n/*\n* JS 無効時・`assets/site.js` の読み込み失敗時の退避経路（イシュー #951\n* 受入条件）。`crate::layout` は既定で `hidden` 属性を付与し、`site.js` は\n* イベント配線が完了した後にのみこの属性を除去する（`crate::script`\n* モジュール doc 手順 5 参照）。詳細度 0,2,0 で `.docs-theme-toggle`\n* （0,1,0）に順序非依存で勝つ。\n*/\n.docs-theme-toggle[hidden] {\ndisplay: none;\n}\n\n/*\n* ---- 検索 UI（素の JS、イシュー #958） ----\n*\n* `.docs-header-actions` の第 1 子（`crate::layout` 参照）。既定 `hidden` の\n* 退避経路は `.docs-theme-toggle[hidden]` と同型（配線完了後にのみ\n* `crate::script::SITE_JS` が `hidden` を除去する）。`display: none` にせず\n* `min-width: 0` + `max-width` で縮小に任せるため、狭幅帯域でも要素自体は\n* 消さない（`hidden` 属性のみが非表示の唯一の情報源）。\n*/\n.docs-search {\nposition: relative;\ndisplay: flex;\nalign-items: center;\nmin-width: 0;\n}\n\n.docs-search[hidden] {\ndisplay: none;\n}\n\n.docs-search-input {\nwidth: 100%;\nmax-width: 9rem;\nmin-width: 0;\nfont: inherit;\nfont-size: var(--fandhe-font-font-size-sm);\npadding: 0.35rem 0.6rem;\nborder: 1px solid var(--fandhe-color-border);\nborder-radius: var(--fandhe-radius-sm);\nbackground: var(--fandhe-color-bg);\ncolor: var(--fandhe-color-fg);\n}\n\n.docs-search-input:focus-visible {\n";

pub const STRUCTURAL_PART_5: &'static str = "outline: 2px solid var(--fandhe-color-accent);\noutline-offset: 2px;\n}\n\n/*\n* 検索結果パネル。`.docs-header`（z-index 10）・`.docs-header-dropdown`\n* （z-index 20）より上に出すため z-index 30 を使う（`.docs-header`/\n* `.docs-header-inner` はいずれも `overflow` を宣言していないため絶対配置\n* パネルはクリップされない）。\n*/\n.docs-search-results {\nposition: absolute;\ntop: 100%;\nright: 0;\nz-index: 30;\nmargin: 0.25rem 0 0;\npadding: 0.25rem;\nlist-style: none;\nmin-width: 18rem;\nmax-height: 60vh;\noverflow-y: auto;\nbackground: var(--fandhe-color-bg);\nborder: 1px solid var(--fandhe-color-border);\nborder-radius: var(--fandhe-radius-sm);\n}\n\n.docs-search-results[hidden] {\ndisplay: none;\n}\n\n/* 以下 4 class（`.docs-search-result*`・`.docs-search-empty`）は\n* `crate::script::SITE_JS` が実行時に `document.createElement` で生成する\n* ため SSG 出力（`crates/docs-site/tests/site_css_contract.rs` の層 1\n* `STRUCTURE_CLASS_CONTRACT`）には出現しない。`SEARCH_JS_ONLY_CLASSES`\n* （同ファイル）が (b) セレクタ存在・(a′) SITE_JS へのリテラル出現・\n* (c′) HTML 非出現の 3 方向で別枠検証する。 */\n.docs-search-result {\ndisplay: block;\nborder-radius: var(--fandhe-radius-sm);\n}\n\n.docs-search-result > a {\ndisplay: block;\npadding: 0.4rem 0.6rem;\ntext-decoration: none;\ncolor: var(--fandhe-color-fg);\n}\n\n.docs-search-result[aria-selected=\"true\"] {\nbackground: var(--fandhe-color-bg-subtle);\n}\n\n.docs-search-result-title {\ndisplay: block;\nfont-size: var(--fandhe-font-font-size-sm);\nfont-weight: 500;\n}\n\n.docs-search-result-section {\ndisplay: block;\ncolor: var(--fandhe-color-fg-muted);\nfont-size: var(--fandhe-font-font-size-sm);\n}\n\n";

pub const STRUCTURAL_PART_6: &'static str = ".docs-search-empty {\ndisplay: block;\npadding: 0.5rem 0.6rem;\ncolor: var(--fandhe-color-fg-muted);\n}\n\n/*\n* `.docs-header-dropdown` の開閉状態の唯一の情報源は `:hover`/`:focus-within`\n* （マウス操作・キーボード操作の双方をカバーする。JS を使わないため\n* `aria-expanded` 等の動的属性で開閉状態を表現しない、`header_nav` rustdoc\n* 参照）。\n*\n* `header_nav` は headless `nav_list` anatomy（`nav::sidebar` と同じ\n* `data-scope=\"nav-list\" data-part=\"list|link\"`）を再利用しているため、\n* `nav_list::stylesheet()` の `[data-scope=\"nav-list\"][data-part=\"...\"]`\n* ルール（詳細度 0,2,0・`[data-part][aria-current=\"page\"]` は 0,3,0）が\n* 素の class セレクタ（0,1,0/0,1,1）に競り勝ち、dropdown の padding・\n* リンク色・カレントページの font-weight が適用されない不具合があった\n* （Bugbot 指摘、イシュー #908 PR #919 レビュー）。サイドバーが\n* `.docs-sidebar nav.sidebar ...`（詳細度 0,2,1 以上）で対策済みなのと\n* 同型で、以下 padding/color/font-weight を上書きするセレクタは\n* `.docs-header nav.docs-header-nav .docs-header-dropdown ...`\n* （詳細度 0,3,1 以上、`nav_list` 側の最大 0,3,0 を常に上回る）で\n* 固定する。開閉トグル（`display`）・右端アンカー（`left`/`right`）は\n* `nav_list::stylesheet()` 側に競合するプロパティが存在しないため\n* プレフィックス不要のまま据え置く。\n*/\n.docs-header nav.docs-header-nav .docs-header-dropdown {\nposition: absolute;\ntop: 100%;\nleft: 0;\ndisplay: none;\nz-index: 20;\nmin-width: 12rem;\nmargin: 0;\npadding: 0.35rem;\nlist-style: none;\nborder: 1px solid var(--fandhe-color-border);\nborder-radius: 0.5rem;\nbackground: var(--fandhe-color-bg);\n/* 影はライト/ダークで光量が異なるため `--fandhe-shadow-*`（イシュー #606\n* の DualModeToken、`Theme::default` の `DEFAULT_SHADOWS`）を参照する。\n* 生 rgba を書くとダーク背景で輪郭が視認できない（イシュー #912 是正）。 */\nbox-shadow: var(--fandhe-shadow-md);\n}\n\n";

pub const STRUCTURAL_PART_7: &'static str = ".docs-header nav.docs-header-nav .docs-header-group:hover > .docs-header-dropdown,\n.docs-header nav.docs-header-nav .docs-header-group:focus-within > .docs-header-dropdown {\ndisplay: block;\n}\n\n/*\n* `.docs-header-nav` は `margin-left: auto` で右寄せされる（上記 768px\n* ブレークポイントの @media ブロック参照）ため、`.docs-header-menu` 内の\n* 最後（最右）のグループは `left: 0` アンカーのままだとドロップダウンが\n* ビューポート右端をはみ出してクリップされうる（Bugbot 指摘、イシュー #908\n* PR #919 レビュー）。最後のグループのみ右端アンカー（`right: 0`）に\n* 切り替えて右はみ出しを防ぐ。\n*/\n.docs-header nav.docs-header-nav .docs-header-group:last-child > .docs-header-dropdown {\nleft: auto;\nright: 0;\n}\n\n.docs-header nav.docs-header-nav .docs-header-dropdown a {\ndisplay: block;\npadding: 0.32rem 0.5rem;\nborder-radius: 0.4rem;\ncolor: var(--fandhe-color-fg-muted);\ntext-decoration: none;\nfont-size: 0.85rem;\n}\n\n.docs-header nav.docs-header-nav .docs-header-dropdown a:hover {\ncolor: var(--fandhe-color-fg);\nbackground: var(--fandhe-color-bg-subtle);\n}\n\n.docs-header nav.docs-header-nav .docs-header-dropdown a[aria-current=\"page\"] {\nbackground: var(--fandhe-color-docs-accent-bg);\ncolor: var(--fandhe-color-accent);\nfont-weight: 600;\n}\n\n/*\n* ---- 3 カラムレイアウト（イシュー #907、mobile-first） ----\n*\n* 基底（768px 未満）は 1 カラム縦積み。`min-width: 768px` で左ナビ + 中央\n* コンテンツの 2 カラム grid、`min-width: 1200px` で右目次カラムを加えた\n* 3 カラム grid になる（設計文書 §3.2）。右目次カラムの sticky 追従・\n* 視覚スタイルの仕上げは #909。左ナビの折りたたみトグル UI・pre-styled-ui\n* スタイル適用は #910 で完了した（`nav_list::stylesheet()` の配線、下記\n* 「サイドバー（左ナビ）」節参照）。\n*/\n\n.docs-container {\ndisplay: block;\n";

pub const STRUCTURAL_PART_8: &'static str = "max-width: var(--fandhe-space-docs-container-width);\nmargin: 0 auto;\n}\n\n/*\n* ---- サイドバー（左ナビ、イシュー #910） ----\n*\n* headless `nav_list`（`nav::sidebar()` の実出力、`data-scope=\"nav-list\"\n* data-part=\"heading|list|item|link\"`）へ `nav_list::stylesheet()`（下記\n* `stylesheet()` 関数、`push_theme` の直後に `push_css`）が list-style 除去・\n* `ul`/`h2` の margin リセット・link の `display: block`/`text-decoration:\n* none`・`[aria-current=\"page\"]` の accent 色を基底として提供する。\n* ここでは docs 固有の差分（余白・角丸・hover 背景・現在ページの\n* アクセントバー）のみを `.docs-sidebar nav.sidebar` の詳細度\n* （0,2,1・`[data-scope][data-part]` の 0,2,0 より高い）で上書きする\n* （両者の連結順は [`stylesheet`] 参照。docs 側セレクタが常にカスケード\n* 後方かつ高詳細度のため衝突しない）。\n*/\n\n.docs-sidebar {\nwidth: 100%;\npadding: var(--fandhe-space-docs-gutter);\nborder-right: none;\nborder-bottom: 1px solid var(--fandhe-color-border);\nfont-size: var(--fandhe-font-font-size-sm);\n}\n\n/*\n* 折りたたみ対象は `nav.sidebar`（`aside.docs-sidebar` ではなく）。基底\n* （768px 未満）は `max-height` で 1 行程度に折りたたむ（JS 不要、`layout.rs`\n* モジュール doc 参照）。開閉状態の唯一の情報源はチェックボックスの\n* `:checked` とする（focus-within 系疑似クラスを OR で加えない）。フォーカスが\n* ナビ内に残ったままチェックを外しても閉じられなくなる回帰があったため\n* （Bugbot 指摘 #916 是正）。チェックボックス自体は sr-only パターンで\n* 視覚的に隠すのみで DOM から除去しないため（`.docs-sidebar-toggle`\n* 参照）、クリップされたリンクへも Tab で到達でき、チェックボックス自体を\n* Space キーで開閉できる（a11y 上の後退なし）。\n*/\n.docs-sidebar nav.sidebar {\nmax-height: 2.75rem;\noverflow: hidden;\n}\n\n.docs-sidebar-toggle:checked ~ nav.sidebar {\nmax-height: none;\noverflow: visible;\n}\n\n/*\n* `.docs-sidebar-toggle`（input 要素（type=\"checkbox\"））は sr-only パターンで\n";

pub const STRUCTURAL_PART_9: &'static str = "* 視覚的に隠すのみで DOM からは除去しない（Tab フォーカス・Enter/Space\n* 操作の対象から外さない。`display: none`/`visibility: hidden` にしない\n* 理由）。`min-width: 768px`（折りたたみ自体を行わない帯域）では\n* `display: none` に切り替える（下記 `@media` ブロック。この帯域では\n* サイドバーが常時全展開のためチェックボックスの状態自体が意味を持たなく\n* なり、キーボードユーザーが無意味なコントロールへ無駄にフォーカスを\n* 奪われる回帰を避ける、Bugbot 指摘 #916 是正）。\n*/\n.docs-sidebar-toggle {\nposition: absolute;\nwidth: 1px;\nheight: 1px;\npadding: 0;\nmargin: -1px;\noverflow: hidden;\nclip: rect(0, 0, 0, 0);\nwhite-space: nowrap;\nborder: 0;\n}\n\n/*\n* `.docs-sidebar-toggle-label` はチェックボックスの可視トリガー。基底\n* （768px 未満、折りたたみが有効な帯域）でのみ表示し、`min-width: 768px`\n* （折りたたみ自体を行わない帯域、下記 `@media` ブロック）では非表示にする。\n*/\n.docs-sidebar-toggle-label {\ndisplay: block;\ncursor: pointer;\npadding: 0.4rem 0.6rem;\nmargin: -0.4rem -0.6rem 0.4rem;\nborder-radius: 0.4rem;\nfont-size: 0.8rem;\nfont-weight: var(--fandhe-font-font-weight-semibold);\ncolor: var(--fandhe-color-accent);\n}\n\n.docs-sidebar-toggle-label:hover {\nbackground: var(--fandhe-color-bg-subtle);\n}\n\n.docs-sidebar nav.sidebar {\ndisplay: flex;\nflex-direction: column;\ngap: 0.2rem;\n}\n\n.docs-sidebar nav.sidebar h2 {\nfont-weight: var(--fandhe-font-font-weight-semibold);\nfont-size: 0.72rem;\nletter-spacing: 0.06em;\ntext-transform: uppercase;\ncolor: var(--fandhe-color-fg-muted);\nmargin: 1.1rem 0.5rem 0.3rem;\n}\n\n.docs-sidebar nav.sidebar h2:first-child {\nmargin-top: 0;\n}\n\n.docs-sidebar nav.sidebar ul {\nmargin: 0 0 0.4rem;\npadding: 0;\ndisplay: flex;\nflex-direction: column;\ngap: 0.05rem;\n}\n\n.docs-sidebar nav.sidebar li {\nmargin: 0;\n}\n\n";

pub const STRUCTURAL_PART_10: &'static str = ".docs-sidebar nav.sidebar a {\npadding: 0.32rem 0.5rem;\nborder-radius: 0.4rem;\ncolor: var(--fandhe-color-fg-muted);\nfont-size: var(--fandhe-font-font-size-sm);\nborder-left: 2px solid transparent;\n}\n\n.docs-sidebar nav.sidebar a:hover {\ncolor: var(--fandhe-color-fg);\nbackground: var(--fandhe-color-bg-subtle);\n}\n\n.docs-sidebar nav.sidebar a[aria-current=\"page\"] {\nbackground: var(--fandhe-color-docs-accent-bg);\ncolor: var(--fandhe-color-accent);\nborder-left-color: var(--fandhe-color-accent);\nfont-weight: var(--fandhe-font-font-weight-semibold);\n}\n\n/*\n* ---- サイドバー内カテゴリ階層（details/summary、イシュー #940） ----\n*\n* `crate::nav::sidebar()` のグループ描画（`[[section.group]]`）が出力する\n* `details.docs-nav-group` / `.docs-nav-group-summary` / `.docs-nav-group-list`\n* の骨格 CSS。`.docs-nav-group-list` は nav_list `list()` を再利用しており\n* `[data-scope=\"nav-list\"][data-part=\"list\"]`（詳細度 0,2,0）と競合するため、\n* 直下ページ `ul`（上記）と同型に `.docs-sidebar nav.sidebar ...`\n* （詳細度 0,2,1 以上）で確実に上書きする（#908/PR #919 で実際に踏んだ\n* 詳細度の罠の再発防止）。\n*/\n.docs-sidebar nav.sidebar details.docs-nav-group {\nmargin: 0.2rem 0;\nborder-top: 1px solid var(--fandhe-color-border);\npadding-top: 0.2rem;\n}\n\n.docs-sidebar nav.sidebar .docs-nav-group-summary {\ncursor: pointer;\nlist-style: none;\npadding: 0.32rem 0.5rem;\nborder-radius: 0.4rem;\nfont-weight: var(--fandhe-font-font-weight-semibold);\nfont-size: 0.72rem;\nletter-spacing: 0.06em;\ntext-transform: uppercase;\ncolor: var(--fandhe-color-fg-muted);\n}\n\n/* Chrome/Safari のデフォルト三角マーカーを消し、上記 uppercase 見出し体裁と\n";

pub const STRUCTURAL_PART_11: &'static str = "* 揃える（`::marker`（Firefox 系）と `::-webkit-details-marker`\n* （Chromium/Safari 系）の両方を明示的に消す必要がある）。 */\n.docs-sidebar nav.sidebar .docs-nav-group-summary::marker,\n.docs-sidebar nav.sidebar .docs-nav-group-summary::-webkit-details-marker {\ndisplay: none;\n}\n\n.docs-sidebar nav.sidebar .docs-nav-group-summary:hover {\nbackground: var(--fandhe-color-bg-subtle);\n}\n\n.docs-sidebar nav.sidebar .docs-nav-group-summary:focus-visible {\noutline: 2px solid var(--fandhe-color-accent);\noutline-offset: 2px;\n}\n\n.docs-sidebar nav.sidebar .docs-nav-group-list {\nmargin: 0.1rem 0 0.2rem;\npadding: 0;\npadding-left: 0.6rem;\ndisplay: flex;\nflex-direction: column;\ngap: 0.05rem;\n}\n\n/* ---- 本文カラム ---- */\n\n.docs-main {\nmin-width: 0;\npadding: 1.5rem 1.1rem 3rem;\n}\n\n.docs-content {\ndisplay: block;\nmax-width: var(--fandhe-space-docs-max-content-width);\nmargin: 0 auto;\n}\n\n/* ---- 右目次カラム内のページ内目次（イシュー #909） ---- */\n\n/*\n* #907 まではカード風（本文内配置）だったが、#909 で `aside.docs-toc-aside`\n* （右カラム）専用の視覚へ書き換えた。カード装飾（border/background/\n* max-width）を除去し、細身のインデックス表現にする。h2/h3 の階層表現\n* （`.docs-toc-level-2` / `-3` のインデント）は既存契約のまま不変。\n*/\n.docs-toc {\nfont-size: 0.8rem;\nline-height: 1.5;\n}\n\n/*\n* 右目次の見出し（イシュー #950）。サイドバーのカテゴリ見出し\n* （`.docs-sidebar nav.sidebar h2`、上記）と同じ uppercase の小見出し\n* 体裁に揃える。`nav.docs-toc` の `aria-labelledby` が本要素の `id`\n* （`crate::layout::TOC_HEADING_ID`）を参照する。\n*/\n.docs-toc-title {\nmargin: 0 0 0.5rem;\nfont-size: 0.72rem;\nfont-weight: var(--fandhe-font-font-weight-semibold);\nletter-spacing: 0.06em;\ntext-transform: uppercase;\n";

pub const STRUCTURAL_PART_12: &'static str = "color: var(--fandhe-color-fg-muted);\n}\n\n.docs-toc ul {\nlist-style: none;\nmargin: 0;\npadding: 0;\ndisplay: flex;\nflex-direction: column;\ngap: 0.2rem;\n}\n\n.docs-toc a {\ndisplay: block;\ncolor: var(--fandhe-color-fg-muted);\ntext-decoration: none;\n/* 長い `h3` タイトル（例: API ページの `placement API` 節見出し）が\n* 15rem の右カラム内で単語境界を越えて折り返せるようにする。テキスト\n* の切り詰め（ellipsis/line-clamp）は行わない（情報欠落を招くため）。\n*/\noverflow-wrap: anywhere;\npadding: 0.12rem 0 0.12rem 0.5rem;\nborder-left: 2px solid transparent;\n}\n\n.docs-toc a:hover {\ncolor: var(--fandhe-color-accent);\n}\n\n/*\n* 現在地ハイライト（イシュー #950）。`aria-current=\"location\"` は\n* `crate::script::SITE_JS` の IntersectionObserver がスクロール位置に\n* 応じて実行時にのみ付与する（SSG が出力する静的 markup には含まれない）。\n* サイドバーの `aria-current=\"page\"`（現在ページ）と値を分けることで\n* 意味の衝突を避ける。JS 無効・`site.js` 読み込み失敗時はこの規則が一切\n* 一致せず、通常のリンク表示のまま機能する（progressive enhancement）。\n*/\n.docs-toc a[aria-current=\"location\"] {\ncolor: var(--fandhe-color-accent);\nfont-weight: var(--fandhe-font-font-weight-medium);\nborder-left-color: var(--fandhe-color-accent);\n}\n\n.docs-toc-level-2 {\npadding-left: 0;\n}\n\n.docs-toc-level-3 {\n/* 1rem から縮小（イシュー #950）。長い `h3` タイトルの折り返し時に\n* 実効幅を確保し、過大インデントで読みにくくなるのを防ぐ。 */\npadding-left: 0.5rem;\n}\n\n/* ---- 右目次カラム（`aside.docs-toc-aside`。イシュー #907） ---- */\n\n/*\n* 基底・768px 帯域（2 カラム）では非表示。狭幅では「右目次 → 左ナビ」の\n* 順に畳む要件どおり、目次カラムのみを先に隠す。1200px 以上で表示に切り替え、\n* sticky 追従を有効化する（`min-width: 1200px` 側、下記。イシュー #909）。\n*/\n.docs-toc-aside {\ndisplay: none;\n}\n\n/* ---- 前後ページナビ（本文末尾、カード風） ---- */\n\nnav.prev-next {\ndisplay: flex;\n";

pub const STRUCTURAL_PART_13: &'static str = "/* 基底（768px 未満）は縦積み。`min-width: 768px` で横並びに切り替える。 */\nflex-direction: column;\ngap: 0.75rem;\nmargin: 2.5rem 0 0;\nmax-width: var(--fandhe-space-docs-max-content-width);\n}\n\nnav.prev-next .prev,\nnav.prev-next .next {\nflex: 1 1 0;\ndisplay: flex;\n}\n\nnav.prev-next [data-part=\"overlay\"] {\nflex: 1 1 0;\ndisplay: block;\npadding: 0.85rem 1rem;\nborder: 1px solid var(--fandhe-color-border);\nborder-radius: 0.65rem;\ncolor: var(--fandhe-color-fg);\ntext-decoration: none;\nfont-size: 0.9rem;\nfont-weight: var(--fandhe-font-font-weight-medium);\nbackground: var(--fandhe-color-bg-subtle);\n}\n\n/*\n* hover 時はサイドバー現在ページと同じアクセント配色（枠線・文字色・\n* `--fandhe-color-docs-accent-bg` 背景）で統一し、左ナビ・前後ページャの\n* アクセント表現をトークンベースで揃える（イシュー #910）。`link_overlay::\n* stylesheet()` は取り込まない（`overlay` が唯一の子要素のカードで\n* `position: absolute` を適用すると高さが 0 に潰れるため、`site_theme.rs`\n* 側の手書きカード CSS を維持する。`crate::nav::prev_next_nav` rustdoc 参照）。\n*/\nnav.prev-next [data-part=\"overlay\"]:hover {\nborder-color: var(--fandhe-color-accent);\ncolor: var(--fandhe-color-accent);\nbackground: var(--fandhe-color-docs-accent-bg);\n}\n\nnav.prev-next .prev [data-part=\"overlay\"] {\ntext-align: left;\n}\n\n/*\n* 基底（768px 未満、縦積み）では `.prev` と同じ左揃え。`min-width: 768px` で\n* 横並びに切り替わった際に右揃えへ変える（下記 `@media` ブロック参照）。\n*/\nnav.prev-next .next [data-part=\"overlay\"] {\ntext-align: left;\n}\n\n/*\n* ---- `min-width: 768px`: 左ナビ + 中央コンテンツの 2 カラム grid ----\n*\n* 右目次カラム（`.docs-toc-aside`）はこの帯域ではまだ非表示のまま\n* （狭幅では「右目次 → 左ナビ」の順に畳む要件、設計文書 §3.2）。\n*/\n@media (min-width: 768px) {\n.docs-container {\n";

pub const STRUCTURAL_PART_14: &'static str = "display: grid;\ngrid-template-columns: var(--fandhe-space-docs-sidebar-width) minmax(0, 1fr);\nalign-items: start;\n}\n\n.docs-sidebar {\n/*\n* `.docs-header` が sticky top: 0 で常時可視のため、`.docs-sidebar` は\n* ヘッダー分オフセットして常時可視のヘッダー直下に張り付く。\n*/\nposition: sticky;\ntop: var(--fandhe-space-docs-header-height);\nalign-self: start;\nmax-height: calc(100vh - var(--fandhe-space-docs-header-height));\noverflow-y: auto;\nwidth: auto;\npadding: 1.75rem var(--fandhe-space-docs-gutter) 2rem;\nborder-right: 1px solid var(--fandhe-color-border);\nborder-bottom: none;\n}\n\n/* `min-width: 768px` では折りたたみ自体を行わないため、`nav.sidebar` の\n* 折りたたみ制約とタッチ用トグルの可視トリガーの双方を解除する。 */\n.docs-sidebar nav.sidebar {\nmax-height: none;\noverflow: visible;\n}\n\n/* この帯域ではサイドバーが常時全展開のためチェックボックス自体を DOM\n* 上から視覚的に取り除くだけでなく操作対象からも外す（Bugbot 指摘 #916\n* 是正、上記 `.docs-sidebar-toggle` doc コメント参照）。 */\n.docs-sidebar-toggle {\ndisplay: none;\n}\n\n.docs-sidebar-toggle-label {\ndisplay: none;\n}\n\n.docs-main {\npadding: 2.25rem 2rem 5rem;\n}\n\n/* `.docs-header-nav`（セクション別ドロップダウン、イシュー #908）は\n* この帯域から表示に切り替える。モバイルはサイドバー折りたたみトグルが\n* ナビ手段を提供するため基底では非表示のまま。 */\n.docs-header-nav {\ndisplay: flex;\nmargin-left: auto;\n}\n\n/* `.docs-header-nav` が `margin-left: auto` で右寄せを担うこの帯域では\n* `.docs-header-actions` 側の `auto` を打ち消す（イシュー #951。\n* `auto` が 2 つ並んで自由空間を分割し、アクション群がヘッダー中央寄りに\n* ずれるのを防ぐ）。`header_nav` が `None`（`docs_page` 単体呼び出し等）の\n* ときは `.docs-header-nav` 自体が DOM 上に存在せず（`crate::layout`\n* 参照）この隣接セレクタが不成立となるため、`.docs-header-actions` は\n* 基底帯域の `margin-left: auto` のまま右端（トレイリングエッジ）へ\n";

pub const STRUCTURAL_PART_15: &'static str = "* 配置される（Bugbot 指摘 #951 是正。無条件セレクタだと `header_nav`\n* なしの構成でブランド直後に居座ってしまっていた）。 */\n.docs-header-nav + .docs-header-actions {\nmargin-left: 0.75rem;\n}\n\n/* 帯域が広がった分だけ検索欄の縮小上限を緩める（イシュー #958）。 */\n.docs-search-input {\nmax-width: 14rem;\n}\n\nnav.prev-next {\nflex-direction: row;\n}\n\nnav.prev-next .next [data-part=\"overlay\"] {\ntext-align: right;\n}\n}\n\n/*\n* ---- `min-width: 1200px`: 左ナビ + 中央コンテンツ + 右目次の 3 カラム grid ----\n*\n* `.docs-toc-aside` をこの帯域から表示に切り替える。見出しの無いページ\n* （`div.docs-container.docs-container--no-toc`、`crate::layout` が\n* `aside.docs-toc-aside` 自体を出力しない場合に付与する修飾 class）では\n* 右目次列のグリッドトラック自体を収縮させ、空の右カラムが残ったまま\n* 中央カラムが狭くなる回帰を避ける（Bugbot 指摘 #916 是正）。\n*\n* `.docs-toc-aside` は `.docs-sidebar`（`min-width: 768px` ブロック、上記）と\n* 同型の sticky 追従を持つ: `.docs-header` が `position: sticky; top: 0` で\n* 常時可視のため、ヘッダー高さ分オフセットしてヘッダー直下へ張り付け、\n* `max-height` + `overflow-y: auto` で目次が長いページでもカラム内スクロールに\n* 閉じ、ページ全体のレイアウトを崩さない（イシュー #909、受け入れ条件 1・2）。\n*/\n@media (min-width: 1200px) {\n.docs-container {\ngrid-template-columns:\nvar(--fandhe-space-docs-sidebar-width) minmax(0, 1fr)\nvar(--fandhe-space-docs-toc-width);\n}\n\n.docs-container.docs-container--no-toc {\ngrid-template-columns: var(--fandhe-space-docs-sidebar-width) minmax(0, 1fr);\n}\n\n.docs-toc-aside {\ndisplay: block;\nmin-width: 0;\npadding: 1.75rem var(--fandhe-space-docs-gutter) 2rem;\nposition: sticky;\ntop: var(--fandhe-space-docs-header-height);\nalign-self: start;\nmax-height: calc(100vh - var(--fandhe-space-docs-header-height));\noverflow-y: auto;\n}\n}\n\n/*\n";

pub const STRUCTURAL_PART_16: &'static str = "* `.docs-header` が `position: sticky; top: 0` で常時ヘッダー高さ分を占有する\n* ため、右目次カラムのリンク（`.docs-toc a`）や外部からのフラグメント直接リンクで\n* 見出しへジャンプすると素のブラウザ挙動ではヘッダーの下に隠れてしまう。\n* `with_heading_anchors`（id 注入対象は h2/h3）が生成する全アンカーの到達位置を\n* ヘッダー高さ分オフセットし、ページ内リンクが全ページで機能する状態にする\n* （イシュー #909、受け入れ条件 3）。\n*/\n.docs-content h2,\n.docs-content h3 {\nscroll-margin-top: calc(var(--fandhe-space-docs-header-height) + 1rem);\n}\n";

/// The text of the structural rules.
pub open spec fn structural_css_text() -> Seq<char> {
    STRUCTURAL_PART_1@ + STRUCTURAL_PART_2@ + STRUCTURAL_PART_3@ + STRUCTURAL_PART_4@ + STRUCTURAL_PART_5@ + STRUCTURAL_PART_6@ + STRUCTURAL_PART_7@ + STRUCTURAL_PART_8@ + STRUCTURAL_PART_9@ + STRUCTURAL_PART_10@ + STRUCTURAL_PART_11@ + STRUCTURAL_PART_12@ + STRUCTURAL_PART_13@ + STRUCTURAL_PART_14@ + STRUCTURAL_PART_15@ + STRUCTURAL_PART_16@
}

/// `s` holds no `<`.
pub open spec fn no_angle_bracket(s: Seq<char>) -> bool {
    forall|i: int| 0 <= i < s.len() ==> #[trigger] s[i] != '<'
}

proof fn lemma_no_angle_bracket_concat(a: Seq<char>, b: Seq<char>)
    requires
        no_angle_bracket(a),
        no_angle_bracket(b),
    ensures
        no_angle_bracket(a + b),
{
    assert forall|i: int| 0 <= i < (a + b).len() implies #[trigger] (a + b)[i] != '<' by {
        if i < a.len() {
            assert((a + b)[i] == a[i]);
        } else {
            assert((a + b)[i] == b[i - a.len()]);
        }
    }
}

#[verifier::rlimit(50)]
proof fn lemma_structural_part_1_shape()
    ensures
        no_angle_bracket(STRUCTURAL_PART_1@),
        STRUCTURAL_PART_1@.len() == 1497,
{
    reveal_strlit("*,\n*::before,\n*::after {\nbox-sizing: border-box;\n}\n\nhtml {\ncolor-scheme: light dark;\n}\n\nbody {\nmargin: 0;\nbackground: var(--fandhe-color-bg);\ncolor: var(--fandhe-color-fg);\nfont-family: system-ui, -apple-system, \"Segoe UI\", \"Hiragino Sans\",\n\"Noto Sans CJK JP\", \"Yu Gothic\", sans-serif;\nfont-size: 15.5px;\nline-height: 1.65;\n-webkit-font-smoothing: antialiased;\n}\n\n/* ---- ヘッダー ---- */\n\n.docs-header {\nposition: sticky;\ntop: 0;\nz-index: 10;\ndisplay: flex;\nalign-items: center;\nheight: var(--fandhe-space-docs-header-height);\npadding: 0;\nborder-bottom: 1px solid var(--fandhe-color-border);\nbackground: var(--fandhe-color-bg);\n}\n\n/*\n* ヘッダー内側の計測枠（イシュー #949）。`.docs-header` 自体は罫線\n* （border-bottom）を全幅に伸ばすため padding を持たず、ブランド・ヘッダー\n* ナビ・アクション群（`crate::layout::docs_page_with_assets` が組み立てる\n* `div.docs-header-inner` の子）はすべてこの内側コンテナへ収める。\n* `.docs-container`（下記）と同じ `--fandhe-space-docs-container-width` を\n* `max-width` に、`margin: 0 auto` を共有することで、ヘッダー左端と\n* 3 カラム grid の左端が同一の計測枠に載る。\n*/\n.docs-header-inner {\ndisplay: flex;\nalign-items: center;\nwidth: 100%;\nheight: 100%;\nmin-width: 0;\nmax-width: var(--fandhe-space-docs-container-width);\nmargin: 0 auto;\npadding: 0 var(--fandhe-space-docs-gutter);\n}\n\n/*\n* ブランド文字の左端をサイドバーのリンク文字左端に揃える（イシュー #949）。\n* サイドバーのリンク文字左端は `.docs-sidebar` の padding（gutter）+\n* `.docs-sidebar nav.sidebar a` の透明 `border-left`（2px）+ リンク自身の\n* padding（0.5rem）の総和で決まる。`.docs-header-inner` の padding は\n* gutter で揃っているため、ここでは残りの内訳（2px + 0.5rem）だけを\n* `.docs-brand` の padding-left へ足し込む。\n*/\n");
    assert forall|i: int| 0 <= i < STRUCTURAL_PART_1@.len() implies #[trigger] STRUCTURAL_PART_1@[i] != '<' by {}
}

#[verifier::rlimit(50)]
proof fn lemma_structural_part_2_shape()
    ensures
        no_angle_bracket(STRUCTURAL_PART_2@),
        STRUCTURAL_PART_2@.len() == 1495,
{
    reveal_strlit(".docs-brand {\npadding: 0.32rem 0.5rem 0.32rem calc(0.5rem + 2px);\nfont-weight: 600;\nfont-size: 0.95rem;\nletter-spacing: -0.01em;\ncolor: var(--fandhe-color-fg);\ntext-decoration: none;\n}\n\n/*\n* ---- ヘッダーナビ（セクション別ドロップダウン、イシュー #908） ----\n*\n* 基底（768px 未満）では非表示（`min-width: 768px` の @media ブロックで表示に\n* 切り替える）。モバイルは既存のサイドバー折りたたみトグルがナビ手段を\n* 提供する（`.docs-sidebar-toggle-label` 参照）。ドロップダウンの開閉は JS を\n* 使わず `:hover`/`:focus-within` のみで行う（`crate::nav::header_nav` の\n* rustdoc「イシュータイトルとの差分」参照）。\n*/\n.docs-header-nav {\ndisplay: none;\n}\n\n.docs-header-menu {\ndisplay: flex;\nlist-style: none;\nmargin: 0;\npadding: 0;\ngap: 0.25rem;\n}\n\n.docs-header-group {\nposition: relative;\n}\n\n/*\n* トリガーは a 要素（href 属性つき、セクショントップページへの遷移\n* リンク、イシュー #1012）。`crate::nav::header_nav` が\n* `data-scope=\"nav-list\"` を持たない要素として直接組み立てるため、\n* `nav_list::stylesheet()` の `[data-scope=\"nav-list\"][data-part=\"link\"]`\n* （詳細度 0,2,0）は適用されない。よってこの class セレクタ（詳細度 0,1,0）\n* だけで確定させてよく、ドロップダウン内リンク（`.docs-header-dropdown a`）\n* が必要とする `.docs-header nav.docs-header-nav` プレフィックスは不要\n* （#908 Bugbot 指摘の再発防止コメント）。旧 button 要素用の\n* `background: none; border: none; cursor: pointer;` リセットは a 要素では\n* 不要（`cursor: pointer` は `a[href]` の既定）なので削除し、a 要素の既定\n* 下線を抑止する `text-decoration: none` を追加する。\n*/\n.docs-header-trigger {\ndisplay: block;\npadding: 0.4rem 0.6rem;\nborder-radius: 0.4rem;\nfont: inherit;\nfont-size: 0.85rem;\nfont-weight: 500;\ncolor: var(--fandhe-color-fg);\ntext-decoration: none;\n}\n\n.docs-header-trigger:hover {\nbackground: var(--fandhe-color-bg-subtle);\n}\n\n");
    assert forall|i: int| 0 <= i < STRUCTURAL_PART_2@.len() implies #[trigger] STRUCTURAL_PART_2@[i] != '<' by {}
}

#[verifier::rlimit(50)]
proof fn lemma_structural_part_3_shape()
    ensures
        no_angle_bracket(STRUCTURAL_PART_3@),
        STRUCTURAL_PART_3@.len() == 1483,
{
    reveal_strlit(".docs-header-trigger:focus-visible {\noutline: 2px solid var(--fandhe-color-accent);\noutline-offset: 2px;\n}\n\n/*\n* 現在セクションの表現（イシュー #1012）。ドロップダウン内リンクの\n* `a[aria-current=\"page\"]`（ページ完全一致）とは軸が異なる\n* `[aria-current=\"true\"]` を使うため、同一トークン\n* `--fandhe-color-docs-accent-bg` を再利用しても意味は衝突しない。\n*/\n.docs-header-trigger[aria-current=\"true\"] {\ncolor: var(--fandhe-color-accent);\nbackground: var(--fandhe-color-docs-accent-bg);\n}\n\n/*\n* ---- ヘッダーアクション（GitHub リンク・テーマトグル、イシュー #951） ----\n*\n* `docs-header-nav` の有無に関わらず常に出力される（`crate::layout` 参照）。\n* 基底帯域では `margin-left: auto` で右寄せする。`min-width: 768px` では\n* `docs-header-nav` が存在する構成に限り同要素側も `margin-left: auto` を\n* 持つため、下記 @media ブロックで `.docs-header-nav + .docs-header-actions`\n* （隣接セレクタ）に絞って `docs-header-actions` の margin を打ち消す\n* （`auto` が 2 つ並んで自由空間を分割するのを避ける）。`docs-header-nav`\n* が存在しない構成（`header_nav: None`、例: `docs_page` 単体呼び出し）では\n* この隣接セレクタが不成立のまま基底帯域の `margin-left: auto` が有効で\n* あり続け、`min-width: 768px` 以上でもトレイリングエッジへ配置される\n* （Bugbot 指摘 #951 是正、`crate::layout` の DOM 順序＝ brand →\n* [nav if Some] → actions を前提とする）。\n*/\n.docs-header-actions {\ndisplay: flex;\nalign-items: center;\ngap: 0.5rem;\nmargin-left: auto;\n}\n\n.docs-github-link {\nfont-size: 0.85rem;\ncolor: var(--fandhe-color-fg-muted);\ntext-decoration: none;\npadding: 0.4rem 0.6rem;\nborder-radius: 0.4rem;\n}\n\n.docs-github-link:hover {\ncolor: var(--fandhe-color-fg);\nbackground: var(--fandhe-color-bg-subtle);\n}\n\n.docs-github-link:focus-visible {\noutline: 2px solid var(--fandhe-color-accent);\n");
    assert forall|i: int| 0 <= i < STRUCTURAL_PART_3@.len() implies #[trigger] STRUCTURAL_PART_3@[i] != '<' by {}
}

#[verifier::rlimit(50)]
proof fn lemma_structural_part_4_shape()
    ensures
        no_angle_bracket(STRUCTURAL_PART_4@),
        STRUCTURAL_PART_4@.len() == 1480,
{
    reveal_strlit("outline-offset: 2px;\n}\n\n.docs-theme-toggle {\ndisplay: block;\nbackground: none;\nborder: none;\ncursor: pointer;\npadding: 0.4rem 0.6rem;\nborder-radius: 0.4rem;\nfont: inherit;\nfont-size: 0.85rem;\nfont-weight: 500;\ncolor: var(--fandhe-color-fg);\n}\n\n.docs-theme-toggle:hover {\nbackground: var(--fandhe-color-bg-subtle);\n}\n\n.docs-theme-toggle:focus-visible {\noutline: 2px solid var(--fandhe-color-accent);\noutline-offset: 2px;\n}\n\n/*\n* JS 無効時・`assets/site.js` の読み込み失敗時の退避経路（イシュー #951\n* 受入条件）。`crate::layout` は既定で `hidden` 属性を付与し、`site.js` は\n* イベント配線が完了した後にのみこの属性を除去する（`crate::script`\n* モジュール doc 手順 5 参照）。詳細度 0,2,0 で `.docs-theme-toggle`\n* （0,1,0）に順序非依存で勝つ。\n*/\n.docs-theme-toggle[hidden] {\ndisplay: none;\n}\n\n/*\n* ---- 検索 UI（素の JS、イシュー #958） ----\n*\n* `.docs-header-actions` の第 1 子（`crate::layout` 参照）。既定 `hidden` の\n* 退避経路は `.docs-theme-toggle[hidden]` と同型（配線完了後にのみ\n* `crate::script::SITE_JS` が `hidden` を除去する）。`display: none` にせず\n* `min-width: 0` + `max-width` で縮小に任せるため、狭幅帯域でも要素自体は\n* 消さない（`hidden` 属性のみが非表示の唯一の情報源）。\n*/\n.docs-search {\nposition: relative;\ndisplay: flex;\nalign-items: center;\nmin-width: 0;\n}\n\n.docs-search[hidden] {\ndisplay: none;\n}\n\n.docs-search-input {\nwidth: 100%;\nmax-width: 9rem;\nmin-width: 0;\nfont: inherit;\nfont-size: var(--fandhe-font-font-size-sm);\npadding: 0.35rem 0.6rem;\nborder: 1px solid var(--fandhe-color-border);\nborder-radius: var(--fandhe-radius-sm);\nbackground: var(--fandhe-color-bg);\ncolor: var(--fandhe-color-fg);\n}\n\n.docs-search-input:focus-visible {\n");
    assert forall|i: int| 0 <= i < STRUCTURAL_PART_4@.len() implies #[trigger] STRUCTURAL_PART_4@[i] != '<' by {}
}

#[verifier::rlimit(50)]
proof fn lemma_structural_part_5_shape()
    ensures
        no_angle_bracket(STRUCTURAL_PART_5@),
        STRUCTURAL_PART_5@.len() == 1486,
{
    reveal_strlit("outline: 2px solid var(--fandhe-color-accent);\noutline-offset: 2px;\n}\n\n/*\n* 検索結果パネル。`.docs-header`（z-index 10）・`.docs-header-dropdown`\n* （z-index 20）より上に出すため z-index 30 を使う（`.docs-header`/\n* `.docs-header-inner` はいずれも `overflow` を宣言していないため絶対配置\n* パネルはクリップされない）。\n*/\n.docs-search-results {\nposition: absolute;\ntop: 100%;\nright: 0;\nz-index: 30;\nmargin: 0.25rem 0 0;\npadding: 0.25rem;\nlist-style: none;\nmin-width: 18rem;\nmax-height: 60vh;\noverflow-y: auto;\nbackground: var(--fandhe-color-bg);\nborder: 1px solid var(--fandhe-color-border);\nborder-radius: var(--fandhe-radius-sm);\n}\n\n.docs-search-results[hidden] {\ndisplay: none;\n}\n\n/* 以下 4 class（`.docs-search-result*`・`.docs-search-empty`）は\n* `crate::script::SITE_JS` が実行時に `document.createElement` で生成する\n* ため SSG 出力（`crates/docs-site/tests/site_css_contract.rs` の層 1\n* `STRUCTURE_CLASS_CONTRACT`）には出現しない。`SEARCH_JS_ONLY_CLASSES`\n* （同ファイル）が (b) セレクタ存在・(a′) SITE_JS へのリテラル出現・\n* (c′) HTML 非出現の 3 方向で別枠検証する。 */\n.docs-search-result {\ndisplay: block;\nborder-radius: var(--fandhe-radius-sm);\n}\n\n.docs-search-result > a {\ndisplay: block;\npadding: 0.4rem 0.6rem;\ntext-decoration: none;\ncolor: var(--fandhe-color-fg);\n}\n\n.docs-search-result[aria-selected=\"true\"] {\nbackground: var(--fandhe-color-bg-subtle);\n}\n\n.docs-search-result-title {\ndisplay: block;\nfont-size: var(--fandhe-font-font-size-sm);\nfont-weight: 500;\n}\n\n.docs-search-result-section {\ndisplay: block;\ncolor: var(--fandhe-color-fg-muted);\nfont-size: var(--fandhe-font-font-size-sm);\n}\n\n");
    assert forall|i: int| 0 <= i < STRUCTURAL_PART_5@.len() implies #[trigger] STRUCTURAL_PART_5@[i] != '<' by {}
}

#[verifier::rlimit(50)]
proof fn lemma_structural_part_6_shape()
    ensures
        no_angle_bracket(STRUCTURAL_PART_6@),
        STRUCTURAL_PART_6@.len() == 1497,
{
    reveal_strlit(".docs-search-empty {\ndisplay: block;\npadding: 0.5rem 0.6rem;\ncolor: var(--fandhe-color-fg-muted);\n}\n\n/*\n* `.docs-header-dropdown` の開閉状態の唯一の情報源は `:hover`/`:focus-within`\n* （マウス操作・キーボード操作の双方をカバーする。JS を使わないため\n* `aria-expanded` 等の動的属性で開閉状態を表現しない、`header_nav` rustdoc\n* 参照）。\n*\n* `header_nav` は headless `nav_list` anatomy（`nav::sidebar` と同じ\n* `data-scope=\"nav-list\" data-part=\"list|link\"`）を再利用しているため、\n* `nav_list::stylesheet()` の `[data-scope=\"nav-list\"][data-part=\"...\"]`\n* ルール（詳細度 0,2,0・`[data-part][aria-current=\"page\"]` は 0,3,0）が\n* 素の class セレクタ（0,1,0/0,1,1）に競り勝ち、dropdown の padding・\n* リンク色・カレントページの font-weight が適用されない不具合があった\n* （Bugbot 指摘、イシュー #908 PR #919 レビュー）。サイドバーが\n* `.docs-sidebar nav.sidebar ...`（詳細度 0,2,1 以上）で対策済みなのと\n* 同型で、以下 padding/color/font-weight を上書きするセレクタは\n* `.docs-header nav.docs-header-nav .docs-header-dropdown ...`\n* （詳細度 0,3,1 以上、`nav_list` 側の最大 0,3,0 を常に上回る）で\n* 固定する。開閉トグル（`display`）・右端アンカー（`left`/`right`）は\n* `nav_list::stylesheet()` 側に競合するプロパティが存在しないため\n* プレフィックス不要のまま据え置く。\n*/\n.docs-header nav.docs-header-nav .docs-header-dropdown {\nposition: absolute;\ntop: 100%;\nleft: 0;\ndisplay: none;\nz-index: 20;\nmin-width: 12rem;\nmargin: 0;\npadding: 0.35rem;\nlist-style: none;\nborder: 1px solid var(--fandhe-color-border);\nborder-radius: 0.5rem;\nbackground: var(--fandhe-color-bg);\n/* 影はライト/ダークで光量が異なるため `--fandhe-shadow-*`（イシュー #606\n* の DualModeToken、`Theme::default` の `DEFAULT_SHADOWS`）を参照する。\n* 生 rgba を書くとダーク背景で輪郭が視認できない（イシュー #912 是正）。 */\nbox-shadow: var(--fandhe-shadow-md);\n}\n\n");
    assert forall|i: int| 0 <= i < STRUCTURAL_PART_6@.len() implies #[trigger] STRUCTURAL_PART_6@[i] != '<' by {}
}

#[verifier::rlimit(50)]
proof fn lemma_structural_part_7_shape()
    ensures
        no_angle_bracket(STRUCTURAL_PART_7@),
        STRUCTURAL_PART_7@.len() == 1472,
{
    reveal_strlit(".docs-header nav.docs-header-nav .docs-header-group:hover > .docs-header-dropdown,\n.docs-header nav.docs-header-nav .docs-header-group:focus-within > .docs-header-dropdown {\ndisplay: block;\n}\n\n/*\n* `.docs-header-nav` は `margin-left: auto` で右寄せされる（上記 768px\n* ブレークポイントの @media ブロック参照）ため、`.docs-header-menu` 内の\n* 最後（最右）のグループは `left: 0` アンカーのままだとドロップダウンが\n* ビューポート右端をはみ出してクリップされうる（Bugbot 指摘、イシュー #908\n* PR #919 レビュー）。最後のグループのみ右端アンカー（`right: 0`）に\n* 切り替えて右はみ出しを防ぐ。\n*/\n.docs-header nav.docs-header-nav .docs-header-group:last-child > .docs-header-dropdown {\nleft: auto;\nright: 0;\n}\n\n.docs-header nav.docs-header-nav .docs-header-dropdown a {\ndisplay: block;\npadding: 0.32rem 0.5rem;\nborder-radius: 0.4rem;\ncolor: var(--fandhe-color-fg-muted);\ntext-decoration: none;\nfont-size: 0.85rem;\n}\n\n.docs-header nav.docs-header-nav .docs-header-dropdown a:hover {\ncolor: var(--fandhe-color-fg);\nbackground: var(--fandhe-color-bg-subtle);\n}\n\n.docs-header nav.docs-header-nav .docs-header-dropdown a[aria-current=\"page\"] {\nbackground: var(--fandhe-color-docs-accent-bg);\ncolor: var(--fandhe-color-accent);\nfont-weight: 600;\n}\n\n/*\n* ---- 3 カラムレイアウト（イシュー #907、mobile-first） ----\n*\n* 基底（768px 未満）は 1 カラム縦積み。`min-width: 768px` で左ナビ + 中央\n* コンテンツの 2 カラム grid、`min-width: 1200px` で右目次カラムを加えた\n* 3 カラム grid になる（設計文書 §3.2）。右目次カラムの sticky 追従・\n* 視覚スタイルの仕上げは #909。左ナビの折りたたみトグル UI・pre-styled-ui\n* スタイル適用は #910 で完了した（`nav_list::stylesheet()` の配線、下記\n* 「サイドバー（左ナビ）」節参照）。\n*/\n\n.docs-container {\ndisplay: block;\n");
    assert forall|i: int| 0 <= i < STRUCTURAL_PART_7@.len() implies #[trigger] STRUCTURAL_PART_7@[i] != '<' by {}
}

#[verifier::rlimit(50)]
proof fn lemma_structural_part_8_shape()
    ensures
        no_angle_bracket(STRUCTURAL_PART_8@),
        STRUCTURAL_PART_8@.len() == 1483,
{
    reveal_strlit("max-width: var(--fandhe-space-docs-container-width);\nmargin: 0 auto;\n}\n\n/*\n* ---- サイドバー（左ナビ、イシュー #910） ----\n*\n* headless `nav_list`（`nav::sidebar()` の実出力、`data-scope=\"nav-list\"\n* data-part=\"heading|list|item|link\"`）へ `nav_list::stylesheet()`（下記\n* `stylesheet()` 関数、`push_theme` の直後に `push_css`）が list-style 除去・\n* `ul`/`h2` の margin リセット・link の `display: block`/`text-decoration:\n* none`・`[aria-current=\"page\"]` の accent 色を基底として提供する。\n* ここでは docs 固有の差分（余白・角丸・hover 背景・現在ページの\n* アクセントバー）のみを `.docs-sidebar nav.sidebar` の詳細度\n* （0,2,1・`[data-scope][data-part]` の 0,2,0 より高い）で上書きする\n* （両者の連結順は [`stylesheet`] 参照。docs 側セレクタが常にカスケード\n* 後方かつ高詳細度のため衝突しない）。\n*/\n\n.docs-sidebar {\nwidth: 100%;\npadding: var(--fandhe-space-docs-gutter);\nborder-right: none;\nborder-bottom: 1px solid var(--fandhe-color-border);\nfont-size: var(--fandhe-font-font-size-sm);\n}\n\n/*\n* 折りたたみ対象は `nav.sidebar`（`aside.docs-sidebar` ではなく）。基底\n* （768px 未満）は `max-height` で 1 行程度に折りたたむ（JS 不要、`layout.rs`\n* モジュール doc 参照）。開閉状態の唯一の情報源はチェックボックスの\n* `:checked` とする（focus-within 系疑似クラスを OR で加えない）。フォーカスが\n* ナビ内に残ったままチェックを外しても閉じられなくなる回帰があったため\n* （Bugbot 指摘 #916 是正）。チェックボックス自体は sr-only パターンで\n* 視覚的に隠すのみで DOM から除去しないため（`.docs-sidebar-toggle`\n* 参照）、クリップされたリンクへも Tab で到達でき、チェックボックス自体を\n* Space キーで開閉できる（a11y 上の後退なし）。\n*/\n.docs-sidebar nav.sidebar {\nmax-height: 2.75rem;\noverflow: hidden;\n}\n\n.docs-sidebar-toggle:checked ~ nav.sidebar {\nmax-height: none;\noverflow: visible;\n}\n\n/*\n* `.docs-sidebar-toggle`（input 要素（type=\"checkbox\"））は sr-only パターンで\n");
    assert forall|i: int| 0 <= i < STRUCTURAL_PART_8@.len() implies #[trigger] STRUCTURAL_PART_8@[i] != '<' by {}
}

#[verifier::rlimit(50)]
proof fn lemma_structural_part_9_shape()
    ensures
        no_angle_bracket(STRUCTURAL_PART_9@),
        STRUCTURAL_PART_9@.len() == 1495,
{
    reveal_strlit("* 視覚的に隠すのみで DOM からは除去しない（Tab フォーカス・Enter/Space\n* 操作の対象から外さない。`display: none`/`visibility: hidden` にしない\n* 理由）。`min-width: 768px`（折りたたみ自体を行わない帯域）では\n* `display: none` に切り替える（下記 `@media` ブロック。この帯域では\n* サイドバーが常時全展開のためチェックボックスの状態自体が意味を持たなく\n* なり、キーボードユーザーが無意味なコントロールへ無駄にフォーカスを\n* 奪われる回帰を避ける、Bugbot 指摘 #916 是正）。\n*/\n.docs-sidebar-toggle {\nposition: absolute;\nwidth: 1px;\nheight: 1px;\npadding: 0;\nmargin: -1px;\noverflow: hidden;\nclip: rect(0, 0, 0, 0);\nwhite-space: nowrap;\nborder: 0;\n}\n\n/*\n* `.docs-sidebar-toggle-label` はチェックボックスの可視トリガー。基底\n* （768px 未満、折りたたみが有効な帯域）でのみ表示し、`min-width: 768px`\n* （折りたたみ自体を行わない帯域、下記 `@media` ブロック）では非表示にする。\n*/\n.docs-sidebar-toggle-label {\ndisplay: block;\ncursor: pointer;\npadding: 0.4rem 0.6rem;\nmargin: -0.4rem -0.6rem 0.4rem;\nborder-radius: 0.4rem;\nfont-size: 0.8rem;\nfont-weight: var(--fandhe-font-font-weight-semibold);\ncolor: var(--fandhe-color-accent);\n}\n\n.docs-sidebar-toggle-label:hover {\nbackground: var(--fandhe-color-bg-subtle);\n}\n\n.docs-sidebar nav.sidebar {\ndisplay: flex;\nflex-direction: column;\ngap: 0.2rem;\n}\n\n.docs-sidebar nav.sidebar h2 {\nfont-weight: var(--fandhe-font-font-weight-semibold);\nfont-size: 0.72rem;\nletter-spacing: 0.06em;\ntext-transform: uppercase;\ncolor: var(--fandhe-color-fg-muted);\nmargin: 1.1rem 0.5rem 0.3rem;\n}\n\n.docs-sidebar nav.sidebar h2:first-child {\nmargin-top: 0;\n}\n\n.docs-sidebar nav.sidebar ul {\nmargin: 0 0 0.4rem;\npadding: 0;\ndisplay: flex;\nflex-direction: column;\ngap: 0.05rem;\n}\n\n.docs-sidebar nav.sidebar li {\nmargin: 0;\n}\n\n");
    assert forall|i: int| 0 <= i < STRUCTURAL_PART_9@.len() implies #[trigger] STRUCTURAL_PART_9@[i] != '<' by {}
}

#[verifier::rlimit(50)]
proof fn lemma_structural_part_10_shape()
    ensures
        no_angle_bracket(STRUCTURAL_PART_10@),
        STRUCTURAL_PART_10@.len() == 1487,
{
    reveal_strlit(".docs-sidebar nav.sidebar a {\npadding: 0.32rem 0.5rem;\nborder-radius: 0.4rem;\ncolor: var(--fandhe-color-fg-muted);\nfont-size: var(--fandhe-font-font-size-sm);\nborder-left: 2px solid transparent;\n}\n\n.docs-sidebar nav.sidebar a:hover {\ncolor: var(--fandhe-color-fg);\nbackground: var(--fandhe-color-bg-subtle);\n}\n\n.docs-sidebar nav.sidebar a[aria-current=\"page\"] {\nbackground: var(--fandhe-color-docs-accent-bg);\ncolor: var(--fandhe-color-accent);\nborder-left-color: var(--fandhe-color-accent);\nfont-weight: var(--fandhe-font-font-weight-semibold);\n}\n\n/*\n* ---- サイドバー内カテゴリ階層（details/summary、イシュー #940） ----\n*\n* `crate::nav::sidebar()` のグループ描画（`[[section.group]]`）が出力する\n* `details.docs-nav-group` / `.docs-nav-group-summary` / `.docs-nav-group-list`\n* の骨格 CSS。`.docs-nav-group-list` は nav_list `list()` を再利用しており\n* `[data-scope=\"nav-list\"][data-part=\"list\"]`（詳細度 0,2,0）と競合するため、\n* 直下ページ `ul`（上記）と同型に `.docs-sidebar nav.sidebar ...`\n* （詳細度 0,2,1 以上）で確実に上書きする（#908/PR #919 で実際に踏んだ\n* 詳細度の罠の再発防止）。\n*/\n.docs-sidebar nav.sidebar details.docs-nav-group {\nmargin: 0.2rem 0;\nborder-top: 1px solid var(--fandhe-color-border);\npadding-top: 0.2rem;\n}\n\n.docs-sidebar nav.sidebar .docs-nav-group-summary {\ncursor: pointer;\nlist-style: none;\npadding: 0.32rem 0.5rem;\nborder-radius: 0.4rem;\nfont-weight: var(--fandhe-font-font-weight-semibold);\nfont-size: 0.72rem;\nletter-spacing: 0.06em;\ntext-transform: uppercase;\ncolor: var(--fandhe-color-fg-muted);\n}\n\n/* Chrome/Safari のデフォルト三角マーカーを消し、上記 uppercase 見出し体裁と\n");
    assert forall|i: int| 0 <= i < STRUCTURAL_PART_10@.len() implies #[trigger] STRUCTURAL_PART_10@[i] != '<' by {}
}

#[verifier::rlimit(50)]
proof fn lemma_structural_part_11_shape()
    ensures
        no_angle_bracket(STRUCTURAL_PART_11@),
        STRUCTURAL_PART_11@.len() == 1497,
{
    reveal_strlit("* 揃える（`::marker`（Firefox 系）と `::-webkit-details-marker`\n* （Chromium/Safari 系）の両方を明示的に消す必要がある）。 */\n.docs-sidebar nav.sidebar .docs-nav-group-summary::marker,\n.docs-sidebar nav.sidebar .docs-nav-group-summary::-webkit-details-marker {\ndisplay: none;\n}\n\n.docs-sidebar nav.sidebar .docs-nav-group-summary:hover {\nbackground: var(--fandhe-color-bg-subtle);\n}\n\n.docs-sidebar nav.sidebar .docs-nav-group-summary:focus-visible {\noutline: 2px solid var(--fandhe-color-accent);\noutline-offset: 2px;\n}\n\n.docs-sidebar nav.sidebar .docs-nav-group-list {\nmargin: 0.1rem 0 0.2rem;\npadding: 0;\npadding-left: 0.6rem;\ndisplay: flex;\nflex-direction: column;\ngap: 0.05rem;\n}\n\n/* ---- 本文カラム ---- */\n\n.docs-main {\nmin-width: 0;\npadding: 1.5rem 1.1rem 3rem;\n}\n\n.docs-content {\ndisplay: block;\nmax-width: var(--fandhe-space-docs-max-content-width);\nmargin: 0 auto;\n}\n\n/* ---- 右目次カラム内のページ内目次（イシュー #909） ---- */\n\n/*\n* #907 まではカード風（本文内配置）だったが、#909 で `aside.docs-toc-aside`\n* （右カラム）専用の視覚へ書き換えた。カード装飾（border/background/\n* max-width）を除去し、細身のインデックス表現にする。h2/h3 の階層表現\n* （`.docs-toc-level-2` / `-3` のインデント）は既存契約のまま不変。\n*/\n.docs-toc {\nfont-size: 0.8rem;\nline-height: 1.5;\n}\n\n/*\n* 右目次の見出し（イシュー #950）。サイドバーのカテゴリ見出し\n* （`.docs-sidebar nav.sidebar h2`、上記）と同じ uppercase の小見出し\n* 体裁に揃える。`nav.docs-toc` の `aria-labelledby` が本要素の `id`\n* （`crate::layout::TOC_HEADING_ID`）を参照する。\n*/\n.docs-toc-title {\nmargin: 0 0 0.5rem;\nfont-size: 0.72rem;\nfont-weight: var(--fandhe-font-font-weight-semibold);\nletter-spacing: 0.06em;\ntext-transform: uppercase;\n");
    assert forall|i: int| 0 <= i < STRUCTURAL_PART_11@.len() implies #[trigger] STRUCTURAL_PART_11@[i] != '<' by {}
}

#[verifier::rlimit(50)]
proof fn lemma_structural_part_12_shape()
    ensures
        no_angle_bracket(STRUCTURAL_PART_12@),
        STRUCTURAL_PART_12@.len() == 1486,
{
    reveal_strlit("color: var(--fandhe-color-fg-muted);\n}\n\n.docs-toc ul {\nlist-style: none;\nmargin: 0;\npadding: 0;\ndisplay: flex;\nflex-direction: column;\ngap: 0.2rem;\n}\n\n.docs-toc a {\ndisplay: block;\ncolor: var(--fandhe-color-fg-muted);\ntext-decoration: none;\n/* 長い `h3` タイトル（例: API ページの `placement API` 節見出し）が\n* 15rem の右カラム内で単語境界を越えて折り返せるようにする。テキスト\n* の切り詰め（ellipsis/line-clamp）は行わない（情報欠落を招くため）。\n*/\noverflow-wrap: anywhere;\npadding: 0.12rem 0 0.12rem 0.5rem;\nborder-left: 2px solid transparent;\n}\n\n.docs-toc a:hover {\ncolor: var(--fandhe-color-accent);\n}\n\n/*\n* 現在地ハイライト（イシュー #950）。`aria-current=\"location\"` は\n* `crate::script::SITE_JS` の IntersectionObserver がスクロール位置に\n* 応じて実行時にのみ付与する（SSG が出力する静的 markup には含まれない）。\n* サイドバーの `aria-current=\"page\"`（現在ページ）と値を分けることで\n* 意味の衝突を避ける。JS 無効・`site.js` 読み込み失敗時はこの規則が一切\n* 一致せず、通常のリンク表示のまま機能する（progressive enhancement）。\n*/\n.docs-toc a[aria-current=\"location\"] {\ncolor: var(--fandhe-color-accent);\nfont-weight: var(--fandhe-font-font-weight-medium);\nborder-left-color: var(--fandhe-color-accent);\n}\n\n.docs-toc-level-2 {\npadding-left: 0;\n}\n\n.docs-toc-level-3 {\n/* 1rem から縮小（イシュー #950）。長い `h3` タイトルの折り返し時に\n* 実効幅を確保し、過大インデントで読みにくくなるのを防ぐ。 */\npadding-left: 0.5rem;\n}\n\n/* ---- 右目次カラム（`aside.docs-toc-aside`。イシュー #907） ---- */\n\n/*\n* 基底・768px 帯域（2 カラム）では非表示。狭幅では「右目次 → 左ナビ」の\n* 順に畳む要件どおり、目次カラムのみを先に隠す。1200px 以上で表示に切り替え、\n* sticky 追従を有効化する（`min-width: 1200px` 側、下記。イシュー #909）。\n*/\n.docs-toc-aside {\ndisplay: none;\n}\n\n/* ---- 前後ページナビ（本文末尾、カード風） ---- */\n\nnav.prev-next {\ndisplay: flex;\n");
    assert forall|i: int| 0 <= i < STRUCTURAL_PART_12@.len() implies #[trigger] STRUCTURAL_PART_12@[i] != '<' by {}
}

#[verifier::rlimit(50)]
proof fn lemma_structural_part_13_shape()
    ensures
        no_angle_bracket(STRUCTURAL_PART_13@),
        STRUCTURAL_PART_13@.len() == 1491,
{
    reveal_strlit("/* 基底（768px 未満）は縦積み。`min-width: 768px` で横並びに切り替える。 */\nflex-direction: column;\ngap: 0.75rem;\nmargin: 2.5rem 0 0;\nmax-width: var(--fandhe-space-docs-max-content-width);\n}\n\nnav.prev-next .prev,\nnav.prev-next .next {\nflex: 1 1 0;\ndisplay: flex;\n}\n\nnav.prev-next [data-part=\"overlay\"] {\nflex: 1 1 0;\ndisplay: block;\npadding: 0.85rem 1rem;\nborder: 1px solid var(--fandhe-color-border);\nborder-radius: 0.65rem;\ncolor: var(--fandhe-color-fg);\ntext-decoration: none;\nfont-size: 0.9rem;\nfont-weight: var(--fandhe-font-font-weight-medium);\nbackground: var(--fandhe-color-bg-subtle);\n}\n\n/*\n* hover 時はサイドバー現在ページと同じアクセント配色（枠線・文字色・\n* `--fandhe-color-docs-accent-bg` 背景）で統一し、左ナビ・前後ページャの\n* アクセント表現をトークンベースで揃える（イシュー #910）。`link_overlay::\n* stylesheet()` は取り込まない（`overlay` が唯一の子要素のカードで\n* `position: absolute` を適用すると高さが 0 に潰れるため、`site_theme.rs`\n* 側の手書きカード CSS を維持する。`crate::nav::prev_next_nav` rustdoc 参照）。\n*/\nnav.prev-next [data-part=\"overlay\"]:hover {\nborder-color: var(--fandhe-color-accent);\ncolor: var(--fandhe-color-accent);\nbackground: var(--fandhe-color-docs-accent-bg);\n}\n\nnav.prev-next .prev [data-part=\"overlay\"] {\ntext-align: left;\n}\n\n/*\n* 基底（768px 未満、縦積み）では `.prev` と同じ左揃え。`min-width: 768px` で\n* 横並びに切り替わった際に右揃えへ変える（下記 `@media` ブロック参照）。\n*/\nnav.prev-next .next [data-part=\"overlay\"] {\ntext-align: left;\n}\n\n/*\n* ---- `min-width: 768px`: 左ナビ + 中央コンテンツの 2 カラム grid ----\n*\n* 右目次カラム（`.docs-toc-aside`）はこの帯域ではまだ非表示のまま\n* （狭幅では「右目次 → 左ナビ」の順に畳む要件、設計文書 §3.2）。\n*/\n@media (min-width: 768px) {\n.docs-container {\n");
    assert forall|i: int| 0 <= i < STRUCTURAL_PART_13@.len() implies #[trigger] STRUCTURAL_PART_13@[i] != '<' by {}
}

#[verifier::rlimit(50)]
proof fn lemma_structural_part_14_shape()
    ensures
        no_angle_bracket(STRUCTURAL_PART_14@),
        STRUCTURAL_PART_14@.len() == 1488,
{
    reveal_strlit("display: grid;\ngrid-template-columns: var(--fandhe-space-docs-sidebar-width) minmax(0, 1fr);\nalign-items: start;\n}\n\n.docs-sidebar {\n/*\n* `.docs-header` が sticky top: 0 で常時可視のため、`.docs-sidebar` は\n* ヘッダー分オフセットして常時可視のヘッダー直下に張り付く。\n*/\nposition: sticky;\ntop: var(--fandhe-space-docs-header-height);\nalign-self: start;\nmax-height: calc(100vh - var(--fandhe-space-docs-header-height));\noverflow-y: auto;\nwidth: auto;\npadding: 1.75rem var(--fandhe-space-docs-gutter) 2rem;\nborder-right: 1px solid var(--fandhe-color-border);\nborder-bottom: none;\n}\n\n/* `min-width: 768px` では折りたたみ自体を行わないため、`nav.sidebar` の\n* 折りたたみ制約とタッチ用トグルの可視トリガーの双方を解除する。 */\n.docs-sidebar nav.sidebar {\nmax-height: none;\noverflow: visible;\n}\n\n/* この帯域ではサイドバーが常時全展開のためチェックボックス自体を DOM\n* 上から視覚的に取り除くだけでなく操作対象からも外す（Bugbot 指摘 #916\n* 是正、上記 `.docs-sidebar-toggle` doc コメント参照）。 */\n.docs-sidebar-toggle {\ndisplay: none;\n}\n\n.docs-sidebar-toggle-label {\ndisplay: none;\n}\n\n.docs-main {\npadding: 2.25rem 2rem 5rem;\n}\n\n/* `.docs-header-nav`（セクション別ドロップダウン、イシュー #908）は\n* この帯域から表示に切り替える。モバイルはサイドバー折りたたみトグルが\n* ナビ手段を提供するため基底では非表示のまま。 */\n.docs-header-nav {\ndisplay: flex;\nmargin-left: auto;\n}\n\n/* `.docs-header-nav` が `margin-left: auto` で右寄せを担うこの帯域では\n* `.docs-header-actions` 側の `auto` を打ち消す（イシュー #951。\n* `auto` が 2 つ並んで自由空間を分割し、アクション群がヘッダー中央寄りに\n* ずれるのを防ぐ）。`header_nav` が `None`（`docs_page` 単体呼び出し等）の\n* ときは `.docs-header-nav` 自体が DOM 上に存在せず（`crate::layout`\n* 参照）この隣接セレクタが不成立となるため、`.docs-header-actions` は\n* 基底帯域の `margin-left: auto` のまま右端（トレイリングエッジ）へ\n");
    assert forall|i: int| 0 <= i < STRUCTURAL_PART_14@.len() implies #[trigger] STRUCTURAL_PART_14@[i] != '<' by {}
}

#[verifier::rlimit(50)]
proof fn lemma_structural_part_15_shape()
    ensures
        no_angle_bracket(STRUCTURAL_PART_15@),
        STRUCTURAL_PART_15@.len() == 1486,
{
    reveal_strlit("* 配置される（Bugbot 指摘 #951 是正。無条件セレクタだと `header_nav`\n* なしの構成でブランド直後に居座ってしまっていた）。 */\n.docs-header-nav + .docs-header-actions {\nmargin-left: 0.75rem;\n}\n\n/* 帯域が広がった分だけ検索欄の縮小上限を緩める（イシュー #958）。 */\n.docs-search-input {\nmax-width: 14rem;\n}\n\nnav.prev-next {\nflex-direction: row;\n}\n\nnav.prev-next .next [data-part=\"overlay\"] {\ntext-align: right;\n}\n}\n\n/*\n* ---- `min-width: 1200px`: 左ナビ + 中央コンテンツ + 右目次の 3 カラム grid ----\n*\n* `.docs-toc-aside` をこの帯域から表示に切り替える。見出しの無いページ\n* （`div.docs-container.docs-container--no-toc`、`crate::layout` が\n* `aside.docs-toc-aside` 自体を出力しない場合に付与する修飾 class）では\n* 右目次列のグリッドトラック自体を収縮させ、空の右カラムが残ったまま\n* 中央カラムが狭くなる回帰を避ける（Bugbot 指摘 #916 是正）。\n*\n* `.docs-toc-aside` は `.docs-sidebar`（`min-width: 768px` ブロック、上記）と\n* 同型の sticky 追従を持つ: `.docs-header` が `position: sticky; top: 0` で\n* 常時可視のため、ヘッダー高さ分オフセットしてヘッダー直下へ張り付け、\n* `max-height` + `overflow-y: auto` で目次が長いページでもカラム内スクロールに\n* 閉じ、ページ全体のレイアウトを崩さない（イシュー #909、受け入れ条件 1・2）。\n*/\n@media (min-width: 1200px) {\n.docs-container {\ngrid-template-columns:\nvar(--fandhe-space-docs-sidebar-width) minmax(0, 1fr)\nvar(--fandhe-space-docs-toc-width);\n}\n\n.docs-container.docs-container--no-toc {\ngrid-template-columns: var(--fandhe-space-docs-sidebar-width) minmax(0, 1fr);\n}\n\n.docs-toc-aside {\ndisplay: block;\nmin-width: 0;\npadding: 1.75rem var(--fandhe-space-docs-gutter) 2rem;\nposition: sticky;\ntop: var(--fandhe-space-docs-header-height);\nalign-self: start;\nmax-height: calc(100vh - var(--fandhe-space-docs-header-height));\noverflow-y: auto;\n}\n}\n\n/*\n");
    assert forall|i: int| 0 <= i < STRUCTURAL_PART_15@.len() implies #[trigger] STRUCTURAL_PART_15@[i] != '<' by {}
}

#[verifier::rlimit(50)]
proof fn lemma_structural_part_16_shape()
    ensures
        no_angle_bracket(STRUCTURAL_PART_16@),
        STRUCTURAL_PART_16@.len() == 383,
{
    reveal_strlit("* `.docs-header` が `position: sticky; top: 0` で常時ヘッダー高さ分を占有する\n* ため、右目次カラムのリンク（`.docs-toc a`）や外部からのフラグメント直接リンクで\n* 見出しへジャンプすると素のブラウザ挙動ではヘッダーの下に隠れてしまう。\n* `with_heading_anchors`（id 注入対象は h2/h3）が生成する全アンカーの到達位置を\n* ヘッダー高さ分オフセットし、ページ内リンクが全ページで機能する状態にする\n* （イシュー #909、受け入れ条件 3）。\n*/\n.docs-content h2,\n.docs-content h3 {\nscroll-margin-top: calc(var(--fandhe-space-docs-header-height) + 1rem);\n}\n");
    assert forall|i: int| 0 <= i < STRUCTURAL_PART_16@.len() implies #[trigger] STRUCTURAL_PART_16@[i] != '<' by {}
}

/// Law: the structural rules hold no `<`, so they can never close a
/// `<style>` element.
pub proof fn lemma_structural_css_has_no_angle_bracket()
    ensures
        no_angle_bracket(structural_css_text()),
{
    lemma_structural_part_1_shape();
    lemma_structural_part_2_shape();
    lemma_structural_part_3_shape();
    lemma_structural_part_4_shape();
    lemma_structural_part_5_shape();
    lemma_structural_part_6_shape();
    lemma_structural_part_7_shape();
    lemma_structural_part_8_shape();
    lemma_structural_part_9_shape();
    lemma_structural_part_10_shape();
    lemma_structural_part_11_shape();
    lemma_structural_part_12_shape();
    lemma_structural_part_13_shape();
    lemma_structural_part_14_shape();
    lemma_structural_part_15_shape();
    lemma_structural_part_16_shape();
    lemma_no_angle_bracket_concat(STRUCTURAL_PART_1@, STRUCTURAL_PART_2@);
    lemma_no_angle_bracket_concat(STRUCTURAL_PART_1@ + STRUCTURAL_PART_2@, STRUCTURAL_PART_3@);
    lemma_no_angle_bracket_concat(STRUCTURAL_PART_1@ + STRUCTURAL_PART_2@ + STRUCTURAL_PART_3@, STRUCTURAL_PART_4@);
    lemma_no_angle_bracket_concat(STRUCTURAL_PART_1@ + STRUCTURAL_PART_2@ + STRUCTURAL_PART_3@ + STRUCTURAL_PART_4@, STRUCTURAL_PART_5@);
    lemma_no_angle_bracket_concat(STRUCTURAL_PART_1@ + STRUCTURAL_PART_2@ + STRUCTURAL_PART_3@ + STRUCTURAL_PART_4@ + STRUCTURAL_PART_5@, STRUCTURAL_PART_6@);
    lemma_no_angle_bracket_concat(STRUCTURAL_PART_1@ + STRUCTURAL_PART_2@ + STRUCTURAL_PART_3@ + STRUCTURAL_PART_4@ + STRUCTURAL_PART_5@ + STRUCTURAL_PART_6@, STRUCTURAL_PART_7@);
    lemma_no_angle_bracket_concat(STRUCTURAL_PART_1@ + STRUCTURAL_PART_2@ + STRUCTURAL_PART_3@ + STRUCTURAL_PART_4@ + STRUCTURAL_PART_5@ + STRUCTURAL_PART_6@ + STRUCTURAL_PART_7@, STRUCTURAL_PART_8@);
    lemma_no_angle_bracket_concat(STRUCTURAL_PART_1@ + STRUCTURAL_PART_2@ + STRUCTURAL_PART_3@ + STRUCTURAL_PART_4@ + STRUCTURAL_PART_5@ + STRUCTURAL_PART_6@ + STRUCTURAL_PART_7@ + STRUCTURAL_PART_8@, STRUCTURAL_PART_9@);
    lemma_no_angle_bracket_concat(STRUCTURAL_PART_1@ + STRUCTURAL_PART_2@ + STRUCTURAL_PART_3@ + STRUCTURAL_PART_4@ + STRUCTURAL_PART_5@ + STRUCTURAL_PART_6@ + STRUCTURAL_PART_7@ + STRUCTURAL_PART_8@ + STRUCTURAL_PART_9@, STRUCTURAL_PART_10@);
    lemma_no_angle_bracket_concat(STRUCTURAL_PART_1@ + STRUCTURAL_PART_2@ + STRUCTURAL_PART_3@ + STRUCTURAL_PART_4@ + STRUCTURAL_PART_5@ + STRUCTURAL_PART_6@ + STRUCTURAL_PART_7@ + STRUCTURAL_PART_8@ + STRUCTURAL_PART_9@ + STRUCTURAL_PART_10@, STRUCTURAL_PART_11@);
    lemma_no_angle_bracket_concat(STRUCTURAL_PART_1@ + STRUCTURAL_PART_2@ + STRUCTURAL_PART_3@ + STRUCTURAL_PART_4@ + STRUCTURAL_PART_5@ + STRUCTURAL_PART_6@ + STRUCTURAL_PART_7@ + STRUCTURAL_PART_8@ + STRUCTURAL_PART_9@ + STRUCTURAL_PART_10@ + STRUCTURAL_PART_11@, STRUCTURAL_PART_12@);
    lemma_no_angle_bracket_concat(STRUCTURAL_PART_1@ + STRUCTURAL_PART_2@ + STRUCTURAL_PART_3@ + STRUCTURAL_PART_4@ + STRUCTURAL_PART_5@ + STRUCTURAL_PART_6@ + STRUCTURAL_PART_7@ + STRUCTURAL_PART_8@ + STRUCTURAL_PART_9@ + STRUCTURAL_PART_10@ + STRUCTURAL_PART_11@ + STRUCTURAL_PART_12@, STRUCTURAL_PART_13@);
    lemma_no_angle_bracket_concat(STRUCTURAL_PART_1@ + STRUCTURAL_PART_2@ + STRUCTURAL_PART_3@ + STRUCTURAL_PART_4@ + STRUCTURAL_PART_5@ + STRUCTURAL_PART_6@ + STRUCTURAL_PART_7@ + STRUCTURAL_PART_8@ + STRUCTURAL_PART_9@ + STRUCTURAL_PART_10@ + STRUCTURAL_PART_11@ + STRUCTURAL_PART_12@ + STRUCTURAL_PART_13@, STRUCTURAL_PART_14@);
    lemma_no_angle_bracket_concat(STRUCTURAL_PART_1@ + STRUCTURAL_PART_2@ + STRUCTURAL_PART_3@ + STRUCTURAL_PART_4@ + STRUCTURAL_PART_5@ + STRUCTURAL_PART_6@ + STRUCTURAL_PART_7@ + STRUCTURAL_PART_8@ + STRUCTURAL_PART_9@ + STRUCTURAL_PART_10@ + STRUCTURAL_PART_11@ + STRUCTURAL_PART_12@ + STRUCTURAL_PART_13@ + STRUCTURAL_PART_14@, STRUCTURAL_PART_15@);
    lemma_no_angle_bracket_concat(STRUCTURAL_PART_1@ + STRUCTURAL_PART_2@ + STRUCTURAL_PART_3@ + STRUCTURAL_PART_4@ + STRUCTURAL_PART_5@ + STRUCTURAL_PART_6@ + STRUCTURAL_PART_7@ + STRUCTURAL_PART_8@ + STRUCTURAL_PART_9@ + STRUCTURAL_PART_10@ + STRUCTURAL_PART_11@ + STRUCTURAL_PART_12@ + STRUCTURAL_PART_13@ + STRUCTURAL_PART_14@ + STRUCTURAL_PART_15@, STRUCTURAL_PART_16@);
}

/// `b` sits at position `a.len() + i` of `a + b + c`.
proof fn lemma_subrange_of_middle(a: Seq<char>, b: Seq<char>, c: Seq<char>, i: int, n: int)
    requires
        0 <= i,
        0 <= n,
        i + n <= b.len(),
    ensures
        (a + b + c).subrange(a.len() + i, a.len() + i + n) == b.subrange(i, i + n),
{
    assert((a + b + c).subrange(a.len() + i, a.len() + i + n) =~= b.subrange(i, i + n));
}

/// Law: the structural rules are 22706 characters long; they open with the
/// `box-sizing` reset, put the `min-width: 768px` block before the
/// `min-width: 1200px` one (mobile first), and close with the rule that
/// keeps `h2`/`h3` anchor targets clear of the sticky header.
pub proof fn lemma_structural_css_shape()
    ensures
        structural_css_text().len() == 22706,
        structural_css_text().take(51) == "*,\n*::before,\n*::after {\nbox-sizing: border-box;\n}\n"@,
        structural_css_text().skip(22595) == ".docs-content h2,\n.docs-content h3 {\nscroll-margin-top: calc(var(--fandhe-space-docs-header-height) + 1rem);\n}\n"@,
        exists|i: int, j: int|
            0 <= i < j && j + 26 <= structural_css_text().len()
                && #[trigger] structural_css_text().subrange(i, i + 25)
                == "@media (min-width: 768px)"@ && #[trigger] structural_css_text().subrange(j, j + 26)
                == "@media (min-width: 1200px)"@,
{
    lemma_structural_part_1_shape();
    lemma_structural_part_2_shape();
    lemma_structural_part_3_shape();
    lemma_structural_part_4_shape();
    lemma_structural_part_5_shape();
    lemma_structural_part_6_shape();
    lemma_structural_part_7_shape();
    lemma_structural_part_8_shape();
    lemma_structural_part_9_shape();
    lemma_structural_part_10_shape();
    lemma_structural_part_11_shape();
    lemma_structural_part_12_shape();
    lemma_structural_part_13_shape();
    lemma_structural_part_14_shape();
    lemma_structural_part_15_shape();
    lemma_structural_part_16_shape();
    let t = structural_css_text();
    reveal_strlit("*,\n*::before,\n*::after {\nbox-sizing: border-box;\n}\n\nhtml {\ncolor-scheme: light dark;\n}\n\nbody {\nmargin: 0;\nbackground: var(--fandhe-color-bg);\ncolor: var(--fandhe-color-fg);\nfont-family: system-ui, -apple-system, \"Segoe UI\", \"Hiragino Sans\",\n\"Noto Sans CJK JP\", \"Yu Gothic\", sans-serif;\nfont-size: 15.5px;\nline-height: 1.65;\n-webkit-font-smoothing: antialiased;\n}\n\n/* ---- ヘッダー ---- */\n\n.docs-header {\nposition: sticky;\ntop: 0;\nz-index: 10;\ndisplay: flex;\nalign-items: center;\nheight: var(--fandhe-space-docs-header-height);\npadding: 0;\nborder-bottom: 1px solid var(--fandhe-color-border);\nbackground: var(--fandhe-color-bg);\n}\n\n/*\n* ヘッダー内側の計測枠（イシュー #949）。`.docs-header` 自体は罫線\n* （border-bottom）を全幅に伸ばすため padding を持たず、ブランド・ヘッダー\n* ナビ・アクション群（`crate::layout::docs_page_with_assets` が組み立てる\n* `div.docs-header-inner` の子）はすべてこの内側コンテナへ収める。\n* `.docs-container`（下記）と同じ `--fandhe-space-docs-container-width` を\n* `max-width` に、`margin: 0 auto` を共有することで、ヘッダー左端と\n* 3 カラム grid の左端が同一の計測枠に載る。\n*/\n.docs-header-inner {\ndisplay: flex;\nalign-items: center;\nwidth: 100%;\nheight: 100%;\nmin-width: 0;\nmax-width: var(--fandhe-space-docs-container-width);\nmargin: 0 auto;\npadding: 0 var(--fandhe-space-docs-gutter);\n}\n\n/*\n* ブランド文字の左端をサイドバーのリンク文字左端に揃える（イシュー #949）。\n* サイドバーのリンク文字左端は `.docs-sidebar` の padding（gutter）+\n* `.docs-sidebar nav.sidebar a` の透明 `border-left`（2px）+ リンク自身の\n* padding（0.5rem）の総和で決まる。`.docs-header-inner` の padding は\n* gutter で揃っているため、ここでは残りの内訳（2px + 0.5rem）だけを\n* `.docs-brand` の padding-left へ足し込む。\n*/\n");
    reveal_strlit("/* 基底（768px 未満）は縦積み。`min-width: 768px` で横並びに切り替える。 */\nflex-direction: column;\ngap: 0.75rem;\nmargin: 2.5rem 0 0;\nmax-width: var(--fandhe-space-docs-max-content-width);\n}\n\nnav.prev-next .prev,\nnav.prev-next .next {\nflex: 1 1 0;\ndisplay: flex;\n}\n\nnav.prev-next [data-part=\"overlay\"] {\nflex: 1 1 0;\ndisplay: block;\npadding: 0.85rem 1rem;\nborder: 1px solid var(--fandhe-color-border);\nborder-radius: 0.65rem;\ncolor: var(--fandhe-color-fg);\ntext-decoration: none;\nfont-size: 0.9rem;\nfont-weight: var(--fandhe-font-font-weight-medium);\nbackground: var(--fandhe-color-bg-subtle);\n}\n\n/*\n* hover 時はサイドバー現在ページと同じアクセント配色（枠線・文字色・\n* `--fandhe-color-docs-accent-bg` 背景）で統一し、左ナビ・前後ページャの\n* アクセント表現をトークンベースで揃える（イシュー #910）。`link_overlay::\n* stylesheet()` は取り込まない（`overlay` が唯一の子要素のカードで\n* `position: absolute` を適用すると高さが 0 に潰れるため、`site_theme.rs`\n* 側の手書きカード CSS を維持する。`crate::nav::prev_next_nav` rustdoc 参照）。\n*/\nnav.prev-next [data-part=\"overlay\"]:hover {\nborder-color: var(--fandhe-color-accent);\ncolor: var(--fandhe-color-accent);\nbackground: var(--fandhe-color-docs-accent-bg);\n}\n\nnav.prev-next .prev [data-part=\"overlay\"] {\ntext-align: left;\n}\n\n/*\n* 基底（768px 未満、縦積み）では `.prev` と同じ左揃え。`min-width: 768px` で\n* 横並びに切り替わった際に右揃えへ変える（下記 `@media` ブロック参照）。\n*/\nnav.prev-next .next [data-part=\"overlay\"] {\ntext-align: left;\n}\n\n/*\n* ---- `min-width: 768px`: 左ナビ + 中央コンテンツの 2 カラム grid ----\n*\n* 右目次カラム（`.docs-toc-aside`）はこの帯域ではまだ非表示のまま\n* （狭幅では「右目次 → 左ナビ」の順に畳む要件、設計文書 §3.2）。\n*/\n@media (min-width: 768px) {\n.docs-container {\n");
    reveal_strlit("* 配置される（Bugbot 指摘 #951 是正。無条件セレクタだと `header_nav`\n* なしの構成でブランド直後に居座ってしまっていた）。 */\n.docs-header-nav + .docs-header-actions {\nmargin-left: 0.75rem;\n}\n\n/* 帯域が広がった分だけ検索欄の縮小上限を緩める（イシュー #958）。 */\n.docs-search-input {\nmax-width: 14rem;\n}\n\nnav.prev-next {\nflex-direction: row;\n}\n\nnav.prev-next .next [data-part=\"overlay\"] {\ntext-align: right;\n}\n}\n\n/*\n* ---- `min-width: 1200px`: 左ナビ + 中央コンテンツ + 右目次の 3 カラム grid ----\n*\n* `.docs-toc-aside` をこの帯域から表示に切り替える。見出しの無いページ\n* （`div.docs-container.docs-container--no-toc`、`crate::layout` が\n* `aside.docs-toc-aside` 自体を出力しない場合に付与する修飾 class）では\n* 右目次列のグリッドトラック自体を収縮させ、空の右カラムが残ったまま\n* 中央カラムが狭くなる回帰を避ける（Bugbot 指摘 #916 是正）。\n*\n* `.docs-toc-aside` は `.docs-sidebar`（`min-width: 768px` ブロック、上記）と\n* 同型の sticky 追従を持つ: `.docs-header` が `position: sticky; top: 0` で\n* 常時可視のため、ヘッダー高さ分オフセットしてヘッダー直下へ張り付け、\n* `max-height` + `overflow-y: auto` で目次が長いページでもカラム内スクロールに\n* 閉じ、ページ全体のレイアウトを崩さない（イシュー #909、受け入れ条件 1・2）。\n*/\n@media (min-width: 1200px) {\n.docs-container {\ngrid-template-columns:\nvar(--fandhe-space-docs-sidebar-width) minmax(0, 1fr)\nvar(--fandhe-space-docs-toc-width);\n}\n\n.docs-container.docs-container--no-toc {\ngrid-template-columns: var(--fandhe-space-docs-sidebar-width) minmax(0, 1fr);\n}\n\n.docs-toc-aside {\ndisplay: block;\nmin-width: 0;\npadding: 1.75rem var(--fandhe-space-docs-gutter) 2rem;\nposition: sticky;\ntop: var(--fandhe-space-docs-header-height);\nalign-self: start;\nmax-height: calc(100vh - var(--fandhe-space-docs-header-height));\noverflow-y: auto;\n}\n}\n\n/*\n");
    reveal_strlit("* `.docs-header` が `position: sticky; top: 0` で常時ヘッダー高さ分を占有する\n* ため、右目次カラムのリンク（`.docs-toc a`）や外部からのフラグメント直接リンクで\n* 見出しへジャンプすると素のブラウザ挙動ではヘッダーの下に隠れてしまう。\n* `with_heading_anchors`（id 注入対象は h2/h3）が生成する全アンカーの到達位置を\n* ヘッダー高さ分オフセットし、ページ内リンクが全ページで機能する状態にする\n* （イシュー #909、受け入れ条件 3）。\n*/\n.docs-content h2,\n.docs-content h3 {\nscroll-margin-top: calc(var(--fandhe-space-docs-header-height) + 1rem);\n}\n");
    reveal_strlit("*,\n*::before,\n*::after {\nbox-sizing: border-box;\n}\n");
    reveal_strlit(".docs-content h2,\n.docs-content h3 {\nscroll-margin-top: calc(var(--fandhe-space-docs-header-height) + 1rem);\n}\n");
    reveal_strlit("@media (min-width: 768px)");
    reveal_strlit("@media (min-width: 1200px)");
    let rest1 = STRUCTURAL_PART_2@ + STRUCTURAL_PART_3@ + STRUCTURAL_PART_4@ + STRUCTURAL_PART_5@ + STRUCTURAL_PART_6@ + STRUCTURAL_PART_7@ + STRUCTURAL_PART_8@ + STRUCTURAL_PART_9@ + STRUCTURAL_PART_10@ + STRUCTURAL_PART_11@ + STRUCTURAL_PART_12@ + STRUCTURAL_PART_13@ + STRUCTURAL_PART_14@ + STRUCTURAL_PART_15@ + STRUCTURAL_PART_16@;
    assert(t =~= STRUCTURAL_PART_1@ + rest1);
    assert(STRUCTURAL_PART_1@.take(51) =~= "*,\n*::before,\n*::after {\nbox-sizing: border-box;\n}\n"@);
    assert(t.take(51) =~= STRUCTURAL_PART_1@.take(51));
    let front15 = STRUCTURAL_PART_1@ + STRUCTURAL_PART_2@ + STRUCTURAL_PART_3@ + STRUCTURAL_PART_4@ + STRUCTURAL_PART_5@ + STRUCTURAL_PART_6@ + STRUCTURAL_PART_7@ + STRUCTURAL_PART_8@ + STRUCTURAL_PART_9@ + STRUCTURAL_PART_10@ + STRUCTURAL_PART_11@ + STRUCTURAL_PART_12@ + STRUCTURAL_PART_13@ + STRUCTURAL_PART_14@ + STRUCTURAL_PART_15@;
    assert(STRUCTURAL_PART_16@.skip(272) =~= ".docs-content h2,\n.docs-content h3 {\nscroll-margin-top: calc(var(--fandhe-space-docs-header-height) + 1rem);\n}\n"@);
    assert(t.skip(22595) =~= STRUCTURAL_PART_16@.skip(272));
    let pre12 = STRUCTURAL_PART_1@ + STRUCTURAL_PART_2@ + STRUCTURAL_PART_3@ + STRUCTURAL_PART_4@ + STRUCTURAL_PART_5@ + STRUCTURAL_PART_6@ + STRUCTURAL_PART_7@ + STRUCTURAL_PART_8@ + STRUCTURAL_PART_9@ + STRUCTURAL_PART_10@ + STRUCTURAL_PART_11@ + STRUCTURAL_PART_12@;
    let post13 = STRUCTURAL_PART_14@ + STRUCTURAL_PART_15@ + STRUCTURAL_PART_16@;
    assert(t =~= pre12 + STRUCTURAL_PART_13@ + post13);
    lemma_subrange_of_middle(pre12, STRUCTURAL_PART_13@, post13, 1445, 25);
    assert(STRUCTURAL_PART_13@.subrange(1445, 1470) =~= "@media (min-width: 768px)"@);
    let pre14 = STRUCTURAL_PART_1@ + STRUCTURAL_PART_2@ + STRUCTURAL_PART_3@ + STRUCTURAL_PART_4@ + STRUCTURAL_PART_5@ + STRUCTURAL_PART_6@ + STRUCTURAL_PART_7@ + STRUCTURAL_PART_8@ + STRUCTURAL_PART_9@ + STRUCTURAL_PART_10@ + STRUCTURAL_PART_11@ + STRUCTURAL_PART_12@ + STRUCTURAL_PART_13@ + STRUCTURAL_PART_14@;
    assert(t =~= pre14 + STRUCTURAL_PART_15@ + STRUCTURAL_PART_16@);
    lemma_subrange_of_middle(pre14, STRUCTURAL_PART_15@, STRUCTURAL_PART_16@, 924, 26);
    assert(STRUCTURAL_PART_15@.subrange(924, 950) =~= "@media (min-width: 1200px)"@);
    assert(t.subrange(19303, 19328) == "@media (min-width: 768px)"@);
    assert(t.subrange(21761, 21787) == "@media (min-width: 1200px)"@);
}

/// The structural rules of the site frame.
pub fn structural_css() -> (s: String)
    ensures
        s@ == structural_css_text(),
        no_angle_bracket(s@),
        s@.len() == 22706,
        s@.skip(22595) == ".docs-content h2,\n.docs-content h3 {\nscroll-margin-top: calc(var(--fandhe-space-docs-header-height) + 1rem);\n}\n"@,
{
    proof {
        lemma_structural_css_has_no_angle_bracket();
        lemma_structural_css_shape();
    }
    let mut s = String::new();
    push_str_chars(&mut s, STRUCTURAL_PART_1);
    push_str_chars(&mut s, STRUCTURAL_PART_2);
    push_str_chars(&mut s, STRUCTURAL_PART_3);
    push_str_chars(&mut s, STRUCTURAL_PART_4);
    push_str_chars(&mut s, STRUCTURAL_PART_5);
    push_str_chars(&mut s, STRUCTURAL_PART_6);
    push_str_chars(&mut s, STRUCTURAL_PART_7);
    push_str_chars(&mut s, STRUCTURAL_PART_8);
    push_str_chars(&mut s, STRUCTURAL_PART_9);
    push_str_chars(&mut s, STRUCTURAL_PART_10);
    push_str_chars(&mut s, STRUCTURAL_PART_11);
    push_str_chars(&mut s, STRUCTURAL_PART_12);
    push_str_chars(&mut s, STRUCTURAL_PART_13);
    push_str_chars(&mut s, STRUCTURAL_PART_14);
    push_str_chars(&mut s, STRUCTURAL_PART_15);
    push_str_chars(&mut s, STRUCTURAL_PART_16);
    assert(s@ =~= structural_css_text());
    s
}

} // verus!

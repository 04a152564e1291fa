//! The only JavaScript the documentation site ships: the theme bootstrap
//! inlined into `<head>` and the `assets/site.js` file (theme toggle and
//! table-of-contents scrollspy).
//!
//! Text nodes are always HTML-escaped, even inside `<script>`, and the
//! browser does not decode entities there. A script can therefore only be
//! embedded as text when it contains none of the characters the escaper
//! rewrites (`<`, `>`, `&`, `"`, `'`); [`is_escape_safe`] checks that, and
//! also forbids template literal interpolation (`${`). The scripts use only
//! backquoted string literals and `||` in place of `&&` for that reason.
use vstd::prelude::*;
use crate::text::chars_of;

verus! {

/// Output path of [`SITE_JS`], relative to the output directory.
pub const SCRIPT_REL_PATH: &'static str = "assets/site.js";

/// The `localStorage` key under which the chosen theme is kept; both scripts
/// read the same key.
pub const THEME_STORAGE_KEY: &'static str = "fandhe-docs-theme";

/// Inlined near the top of `<head>`, before the stylesheets: applies a
/// saved `dark`/`light` theme to `<html data-theme>` before the first paint
/// and ignores `localStorage` failures.
pub const INLINE_THEME_BOOTSTRAP: &'static str = "try{var t=localStorage.getItem(`fandhe-docs-theme`);if(t===`dark`||t===`light`){document.documentElement.setAttribute(`data-theme`,t);}}catch(e){}";

/// The whole of `assets/site.js`: the theme toggle (label, `aria-pressed`,
/// saving the choice, revealing the button only once it is wired) and, in a
/// second independent function, the table-of-contents scrollspy.
pub const SITE_JS: &'static str = "\
(function () {
  var STORAGE_KEY = `fandhe-docs-theme`;
  var toggle = document.querySelector(`.docs-theme-toggle`);
  if (!toggle) {
    return;
  }

  function effectiveTheme() {
    var attr = document.documentElement.getAttribute(`data-theme`);
    if (attr === `dark` || attr === `light`) {
      return attr;
    }
    var prefersDark = false;
    if (window.matchMedia) {
      prefersDark = window.matchMedia(`(prefers-color-scheme: dark)`).matches;
    }
    return prefersDark ? `dark` : `light`;
  }

  function applyLabel(theme) {
    toggle.setAttribute(`aria-pressed`, theme === `dark` ? `true` : `false`);
    toggle.textContent = theme === `dark` ? `Light` : `Dark`;
  }

  function storeTheme(theme) {
    try {
      window.localStorage.setItem(STORAGE_KEY, theme);
    } catch (err) {
      // localStorage が使えない環境（Safari プライベートブラウズ等）では
      // 保存をあきらめ、今回の切替自体は続行する。
    }
  }

  function init() {
    applyLabel(effectiveTheme());
    toggle.addEventListener(`click`, function () {
      var next = effectiveTheme() === `dark` ? `light` : `dark`;
      storeTheme(next);
      document.documentElement.setAttribute(`data-theme`, next);
      applyLabel(next);
    });
    // 配線がすべて完了した後にのみ可視化する（上記 doc コメント手順 5）。
    toggle.removeAttribute(`hidden`);
  }

  if (document.readyState === `loading`) {
    document.addEventListener(`DOMContentLoaded`, init);
  } else {
    init();
  }
})();

(function () {
  var toc = document.querySelector(`.docs-toc`);
  if (!toc) {
    return;
  }
  if (!window.IntersectionObserver) {
    return;
  }

  // href は日本語 id を含み得る。DOM プロパティ経由（ハッシュ由来の値）
  // だとブラウザがパーセントエンコードした値を返し getElementById が
  // 一致しない。属性値そのもの（getAttribute）を decodeURIComponent
  // してから引く。
  var links = [];
  var targets = [];
  var anchors = toc.querySelectorAll(`a`);
  anchors.forEach(function (anchor) {
    var href = anchor.getAttribute(`href`);
    if (!href) {
      return;
    }
    if (href.charAt(0) !== `#`) {
      return;
    }
    var target = document.getElementById(decodeURIComponent(href.slice(1)));
    if (!target) {
      return;
    }
    links.push(anchor);
    targets.push(target);
  });

  if (targets.length === 0) {
    return;
  }

  var visible = [];

  function clearCurrent() {
    links.forEach(function (link) {
      link.removeAttribute(`aria-current`);
    });
  }

  function markCurrent(target) {
    clearCurrent();
    var index = targets.indexOf(target);
    if (index === -1) {
      return;
    }
    links[index].setAttribute(`aria-current`, `location`);
  }

  // 可視集合が空でなければ文書順で最初の可視見出しを採用する。
  function firstVisibleInDocumentOrder() {
    var found = null;
    targets.forEach(function (target) {
      if (found) {
        return;
      }
      if (visible.indexOf(target) !== -1) {
        found = target;
      }
    });
    return found;
  }

  // 可視集合が空のとき（本文が長く見出し同士が離れている場合）の
  // フォールバック: ヘッダー下端を過ぎ去った見出しのうち文書順で
  // 最後のものを現在地とする。`getBoundingClientRect` はこの分岐でのみ
  // 評価し、scroll イベントリスナは張らない（レイアウトスラッシング回避）。
  function lastPassedTarget() {
    var found = null;
    targets.forEach(function (target) {
      var rect = target.getBoundingClientRect();
      if (Math.sign(rect.top - 64) !== 1) {
        found = target;
      }
    });
    return found;
  }

  function update() {
    var current = firstVisibleInDocumentOrder();
    if (!current) {
      current = lastPassedTarget();
    }
    if (current) {
      markCurrent(current);
    } else {
      clearCurrent();
    }
  }

  var observer = new IntersectionObserver(function (entries) {
    entries.forEach(function (entry) {
      var idx = visible.indexOf(entry.target);
      if (entry.isIntersecting) {
        if (idx === -1) {
          visible.push(entry.target);
        }
      } else {
        if (idx !== -1) {
          visible.splice(idx, 1);
        }
      }
    });
    update();
  }, { rootMargin: `-56px 0px -60% 0px` });

  targets.forEach(function (target) {
    observer.observe(target);
  });
})();
";

/// A character that HTML escaping rewrites.
pub open spec fn is_escape_target(c: char) -> bool {
    c == '<' || c == '>' || c == '&' || c == '"' || c == '\''
}

/// `s` holds a template literal interpolation `${`.
pub open spec fn has_interpolation(s: Seq<char>) -> bool {
    exists|i: int| 0 <= i < s.len() - 1 && #[trigger] s[i] == '$' && s[i + 1] == '{'
}

/// `s` survives HTML escaping unchanged and interpolates nothing.
pub open spec fn escape_safe(s: Seq<char>) -> bool {
    &&& forall|i: int| 0 <= i < s.len() ==> !is_escape_target(#[trigger] s[i])
    &&& !has_interpolation(s)
}

/// Law: a text is escape-safe exactly when none of its characters is `<`,
/// `>`, `&`, `"` or `'` and no `$` is directly followed by `{`; every other
/// character, `\` and `$` alone among them, is accepted.
pub proof fn lemma_escape_safe_characters(s: Seq<char>)
    ensures
        escape_safe(s) == ((forall|i: int|
            0 <= i < s.len() ==> #[trigger] s[i] != '<' && s[i] != '>' && s[i] != '&' && s[i]
                != '"' && s[i] != '\'') && !(exists|i: int|
            0 <= i < s.len() - 1 && #[trigger] s[i] == '$' && s[i + 1] == '{')),
{
}

/// Whether `source` contains none of `<`, `>`, `&`, `"`, `'` and no `${`,
/// so that it can be embedded as an escaped text node inside `<script>`.
pub fn is_escape_safe(source: &str) -> (b: bool)
    ensures
        b == escape_safe(source@),
{
    let v = chars_of(source);
    let mut i: usize = 0;
    while i < v.len()
        invariant
            0 <= i <= v.len(),
            v@ == source@,
            forall|j: int| 0 <= j < i ==> !is_escape_target(#[trigger] v@[j]),
            forall|j: int| 0 <= j < i && j + 1 < v@.len() ==> !(#[trigger] v@[j] == '$' && v@[j + 1] == '{'),
        decreases v.len() - i,
    {
        let c = v[i];
        if c == '<' || c == '>' || c == '&' || c == '"' || c == '\'' {
            assert(is_escape_target(v@[i as int]));
            return false;
        }
        if c == '$' && i + 1 < v.len() && v[i + 1] == '{' {
            assert(has_interpolation(v@));
            return false;
        }
        i = i + 1;
    }
    true
}

/// Law: the inline bootstrap passes the escape check, so
/// [`inline_theme_bootstrap`] always returns it.
pub proof fn lemma_inline_bootstrap_is_escape_safe()
    ensures
        escape_safe(INLINE_THEME_BOOTSTRAP@),
{
    reveal_strlit("try{var t=localStorage.getItem(`fandhe-docs-theme`);if(t===`dark`||t===`light`){document.documentElement.setAttribute(`data-theme`,t);}}catch(e){}");
    let s = INLINE_THEME_BOOTSTRAP@;
    assert(s.len() == 146);
    assert forall|i: int| 0 <= i < s.len() implies !is_escape_target(#[trigger] s[i]) by {}
    assert(!has_interpolation(s));
}

/// [`INLINE_THEME_BOOTSTRAP`] when it passes [`is_escape_safe`], and `None`
/// otherwise: a page then ships no bootstrap rather than a broken one.
pub fn inline_theme_bootstrap() -> (r: Option<&'static str>)
    ensures
        r == (if escape_safe(INLINE_THEME_BOOTSTRAP@) {
            Some(INLINE_THEME_BOOTSTRAP)
        } else {
            None
        }),
        r == Some(INLINE_THEME_BOOTSTRAP),
{
    proof {
        lemma_inline_bootstrap_is_escape_safe();
    }
    if is_escape_safe(INLINE_THEME_BOOTSTRAP) {
        Some(INLINE_THEME_BOOTSTRAP)
    } else {
        None
    }
}

/// Law: `assets/site.js` passes the escape check as well.
#[verifier::rlimit(100)]
pub proof fn lemma_site_js_is_escape_safe()
    ensures
        escape_safe(SITE_JS@),
{
    reveal_strlit("\
(function () {
  var STORAGE_KEY = `fandhe-docs-theme`;
  var toggle = document.querySelector(`.docs-theme-toggle`);
  if (!toggle) {
    return;
  }

  function effectiveTheme() {
    var attr = document.documentElement.getAttribute(`data-theme`);
    if (attr === `dark` || attr === `light`) {
      return attr;
    }
    var prefersDark = false;
    if (window.matchMedia) {
      prefersDark = window.matchMedia(`(prefers-color-scheme: dark)`).matches;
    }
    return prefersDark ? `dark` : `light`;
  }

  function applyLabel(theme) {
    toggle.setAttribute(`aria-pressed`, theme === `dark` ? `true` : `false`);
    toggle.textContent = theme === `dark` ? `Light` : `Dark`;
  }

  function storeTheme(theme) {
    try {
      window.localStorage.setItem(STORAGE_KEY, theme);
    } catch (err) {
      // localStorage が使えない環境（Safari プライベートブラウズ等）では
      // 保存をあきらめ、今回の切替自体は続行する。
    }
  }

  function init() {
    applyLabel(effectiveTheme());
    toggle.addEventListener(`click`, function () {
      var next = effectiveTheme() === `dark` ? `light` : `dark`;
      storeTheme(next);
      document.documentElement.setAttribute(`data-theme`, next);
      applyLabel(next);
    });
    // 配線がすべて完了した後にのみ可視化する（上記 doc コメント手順 5）。
    toggle.removeAttribute(`hidden`);
  }

  if (document.readyState === `loading`) {
    document.addEventListener(`DOMContentLoaded`, init);
  } else {
    init();
  }
})();

(function () {
  var toc = document.querySelector(`.docs-toc`);
  if (!toc) {
    return;
  }
  if (!window.IntersectionObserver) {
    return;
  }

  // href は日本語 id を含み得る。DOM プロパティ経由（ハッシュ由来の値）
  // だとブラウザがパーセントエンコードした値を返し getElementById が
  // 一致しない。属性値そのもの（getAttribute）を decodeURIComponent
  // してから引く。
  var links = [];
  var targets = [];
  var anchors = toc.querySelectorAll(`a`);
  anchors.forEach(function (anchor) {
    var href = anchor.getAttribute(`href`);
    if (!href) {
      return;
    }
    if (href.charAt(0) !== `#`) {
      return;
    }
    var target = document.getElementById(decodeURIComponent(href.slice(1)));
    if (!target) {
      return;
    }
    links.push(anchor);
    targets.push(target);
  });

  if (targets.length === 0) {
    return;
  }

  var visible = [];

  function clearCurrent() {
    links.forEach(function (link) {
      link.removeAttribute(`aria-current`);
    });
  }

  function markCurrent(target) {
    clearCurrent();
    var index = targets.indexOf(target);
    if (index === -1) {
      return;
    }
    links[index].setAttribute(`aria-current`, `location`);
  }

  // 可視集合が空でなければ文書順で最初の可視見出しを採用する。
  function firstVisibleInDocumentOrder() {
    var found = null;
    targets.forEach(function (target) {
      if (found) {
        return;
      }
      if (visible.indexOf(target) !== -1) {
        found = target;
      }
    });
    return found;
  }

  // 可視集合が空のとき（本文が長く見出し同士が離れている場合）の
  // フォールバック: ヘッダー下端を過ぎ去った見出しのうち文書順で
  // 最後のものを現在地とする。`getBoundingClientRect` はこの分岐でのみ
  // 評価し、scroll イベントリスナは張らない（レイアウトスラッシング回避）。
  function lastPassedTarget() {
    var found = null;
    targets.forEach(function (target) {
      var rect = target.getBoundingClientRect();
      if (Math.sign(rect.top - 64) !== 1) {
        found = target;
      }
    });
    return found;
  }

  function update() {
    var current = firstVisibleInDocumentOrder();
    if (!current) {
      current = lastPassedTarget();
    }
    if (current) {
      markCurrent(current);
    } else {
      clearCurrent();
    }
  }

  var observer = new IntersectionObserver(function (entries) {
    entries.forEach(function (entry) {
      var idx = visible.indexOf(entry.target);
      if (entry.isIntersecting) {
        if (idx === -1) {
          visible.push(entry.target);
        }
      } else {
        if (idx !== -1) {
          visible.splice(idx, 1);
        }
      }
    });
    update();
  }, { rootMargin: `-56px 0px -60% 0px` });

  targets.forEach(function (target) {
    observer.observe(target);
  });
})();
");
    let s = SITE_JS@;
    assert forall|i: int| 0 <= i < s.len() implies !is_escape_target(#[trigger] s[i]) by {}
    assert(!has_interpolation(s));
}

/// The contents of `assets/site.js`.
pub fn site_js() -> (s: &'static str)
    ensures
        s == SITE_JS,
        escape_safe(s@),
{
    proof {
        lemma_site_js_is_escape_safe();
    }
    SITE_JS
}

} // verus!

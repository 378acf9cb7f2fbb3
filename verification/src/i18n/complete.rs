//! That the two languages say the same things.

use crate::i18n::dict::Dict;
use crate::i18n::en::english_texts;
use crate::i18n::zh::chinese_texts;
use crate::i18n::{
    Lang, dict_of,
};
use crate::text::{
    decimal_of, digit_char, is_digit, lemma_decimal_digits, occurs_at,
};
use vstd::prelude::*;

verus! {

/// A placeholder as it stands in a template.
pub open spec fn hole(n: nat) -> Seq<char> {
    seq!['{'] + decimal_of(n) + seq!['}']
}

/// A template asks for the argument of a number.
pub open spec fn asks_for(t: Seq<char>, n: nat) -> bool {
    exists|i: int| occurs_at(t, hole(n), i)
}

/// Two texts are both there and ask for the same arguments.
pub open spec fn agree(a: Seq<char>, b: Seq<char>) -> bool {
    &&& a.len() > 0 && b.len() > 0
    &&& forall|n: nat| #[trigger] asks_for(a, n) <==> asks_for(b, n)
}

/// An opening brace at a position begins the placeholder of one of the first `count`
/// arguments, with one digit.
spec fn tidy_at(t: Seq<char>, i: int, count: nat) -> bool {
    t[i] == '{' && i < t.len() ==> {
        &&& i + 2 < t.len()
        &&& is_digit(t[i + 1])
        &&& t[i + 1] as int - 0x30 < count
        &&& t[i + 2] == '}'
    }
}

spec fn tidy_block(t: Seq<char>, i: int, count: nat) -> bool {
    &&& tidy_at(t, i, count)
    &&& tidy_at(t, i + 1, count)
    &&& tidy_at(t, i + 2, count)
    &&& tidy_at(t, i + 3, count)
    &&& tidy_at(t, i + 4, count)
    &&& tidy_at(t, i + 5, count)
    &&& tidy_at(t, i + 6, count)
    &&& tidy_at(t, i + 7, count)
    &&& tidy_at(t, i + 8, count)
    &&& tidy_at(t, i + 9, count)
    &&& tidy_at(t, i + 10, count)
    &&& tidy_at(t, i + 11, count)
    &&& tidy_at(t, i + 12, count)
    &&& tidy_at(t, i + 13, count)
    &&& tidy_at(t, i + 14, count)
    &&& tidy_at(t, i + 15, count)
}

/// All opening braces from a position on are of this kind.
spec fn tidy(t: Seq<char>, i: int, count: nat) -> bool
    decreases
        if i < t.len() {
            t.len() - i
        } else {
            0
        },
{
    if i >= t.len() {
        true
    } else {
        tidy_block(t, i, count) && tidy(t, i + 16, count)
    }
}

proof fn lemma_hole_at(t: Seq<char>, n: nat, i: int)
    requires
        0 <= i < t.len(),
        t[i] == '{' ==> i + 2 < t.len() && is_digit(t[i + 1]) && t[i + 2] == '}',
    ensures
        occurs_at(t, hole(n), i) <==> t[i] == '{' && n == t[i + 1] as int - 0x30,
{
    let h = hole(n);
    let digits = decimal_of(n);
    lemma_decimal_digits(n);
    if n >= 10 {
        lemma_decimal_digits(n / 10);
    }
    assert(h[0] == '{');
    assert(h[1] == digits[0]);
    if occurs_at(t, h, i) {
        let found = t.subrange(i, i + h.len());
        assert(t[i] == found[0]);
        assert(t[i + 1] == found[1]);
        assert(t[i + 2] == found[2]);
        if digits.len() > 1 {
            assert(h[2] == digits[1]);
            assert(is_digit(digits[1]));
        }
    }
    if t[i] == '{' && n == t[i + 1] as int - 0x30 {
        assert(digit_char(n) == t[i + 1]);
        assert(t.subrange(i, i + 3) =~= h);
    }
}

proof fn lemma_tidy(t: Seq<char>, i: int, count: nat, n: nat, j: int)
    requires
        tidy(t, i, count),
        0 <= i <= j < t.len(),
        occurs_at(t, hole(n), j),
    ensures
        n < count,
    decreases t.len() - i,
{
    if j < i + 16 {
        let d = j - i;
        assert(d == 0 || d == 1 || d == 2 || d == 3 || d == 4 || d == 5 || d == 6 || d == 7 || d == 8 || d == 9 || d == 10 || d == 11 || d == 12 || d == 13 || d == 14 || d == 15);
        assert(tidy_at(t, j, count));
        lemma_hole_at(t, n, j);
    } else {
        lemma_tidy(t, i + 16, count, n, j);
    }
}

/// The text asks for the first `count` arguments and no others: `at` says where the
/// placeholders stand.
spec fn asks_exactly(t: Seq<char>, count: nat, at: Seq<int>) -> bool {
    &&& t.len() > 0
    &&& tidy(t, 0, count)
    &&& at.len() == count <= 10
    &&& forall|k: int|
        0 <= k < at.len() ==> {
            &&& 0 <= #[trigger] at[k] && at[k] + 2 < t.len()
            &&& t[at[k]] == '{'
            &&& t[at[k] + 1] as int == 0x30 + k
            &&& t[at[k] + 2] == '}'
        }
}

proof fn lemma_asks(t: Seq<char>, count: nat, at: Seq<int>, n: nat)
    requires
        asks_exactly(t, count, at),
    ensures
        asks_for(t, n) <==> n < count,
{
    if n < count {
        lemma_hole_at(t, n, at[n as int]);
        assert(occurs_at(t, hole(n), at[n as int]));
    }
    if asks_for(t, n) {
        let i = choose|i: int| occurs_at(t, hole(n), i);
        lemma_decimal_digits(n);
        assert(i < t.len());
        lemma_tidy(t, 0, count, n, i);
    }
}

proof fn lemma_agree(a: Seq<char>, at: Seq<int>, b: Seq<char>, bt: Seq<int>)
    requires
        asks_exactly(a, at.len(), at),
        asks_exactly(b, bt.len(), bt),
        at.len() == bt.len(),
    ensures
        agree(a, b),
{
    assert forall|n: nat| #[trigger] asks_for(a, n) <==> asks_for(b, n) by {
        lemma_asks(a, at.len(), at, n);
        lemma_asks(b, bt.len(), bt, n);
    }
}

proof fn lemma_from_note_label()
    ensures
        ({
            let e = english_texts();
            let z = chinese_texts();
            &&& agree(e.note_label@, z.note_label@)
            &&& agree(e.ls_no_sessions@, z.ls_no_sessions@)
            &&& agree(e.ls_summary@, z.ls_summary@)
            &&& agree(e.ls_col_idx@, z.ls_col_idx@)
            &&& agree(e.ls_col_name@, z.ls_col_name@)
            &&& agree(e.ls_col_status@, z.ls_col_status@)
            &&& agree(e.ls_col_pid@, z.ls_col_pid@)
            &&& agree(e.ls_col_created@, z.ls_col_created@)
            &&& agree(e.st_detached@, z.st_detached@)
            &&& agree(e.st_attached@, z.st_attached@)
            &&& agree(e.st_multi@, z.st_multi@)
            &&& agree(e.st_dead@, z.st_dead@)
        }),
{
    reveal(english_texts);
    reveal(chinese_texts);
    let e = english_texts();
    let z = chinese_texts();
    assert(agree(e.note_label@, z.note_label@)) by {
        reveal_strlit("note");
        reveal_strlit("提示");
        reveal_with_fuel(tidy, 2);
        lemma_agree(e.note_label@, Seq::empty(), z.note_label@, Seq::empty());
    }
    assert(agree(e.ls_no_sessions@, z.ls_no_sessions@)) by {
        reveal_strlit("# no screen sessions found (socket dir {0})");
        reveal_strlit("# 未发现 screen 会话（socket 目录 {0}）");
        reveal_with_fuel(tidy, 4);
        lemma_agree(e.ls_no_sessions@, seq![39], z.ls_no_sessions@, seq![26]);
    }
    assert(agree(e.ls_summary@, z.ls_summary@)) by {
        reveal_strlit("# {0} session(s) · socket dir {1} · {2}");
        reveal_strlit("# {0} 个会话 · socket 目录 {1} · {2}");
        reveal_with_fuel(tidy, 4);
        lemma_agree(e.ls_summary@, seq![2, 30, 36], z.ls_summary@, seq![2, 22, 28]);
    }
    assert(agree(e.ls_col_idx@, z.ls_col_idx@)) by {
        reveal_strlit("IDX");
        reveal_strlit("#");
        reveal_with_fuel(tidy, 2);
        lemma_agree(e.ls_col_idx@, Seq::empty(), z.ls_col_idx@, Seq::empty());
    }
    assert(agree(e.ls_col_name@, z.ls_col_name@)) by {
        reveal_strlit("NAME");
        reveal_strlit("名字");
        reveal_with_fuel(tidy, 2);
        lemma_agree(e.ls_col_name@, Seq::empty(), z.ls_col_name@, Seq::empty());
    }
    assert(agree(e.ls_col_status@, z.ls_col_status@)) by {
        reveal_strlit("STATUS");
        reveal_strlit("状态");
        reveal_with_fuel(tidy, 2);
        lemma_agree(e.ls_col_status@, Seq::empty(), z.ls_col_status@, Seq::empty());
    }
    assert(agree(e.ls_col_pid@, z.ls_col_pid@)) by {
        reveal_strlit("PID");
        reveal_with_fuel(tidy, 2);
        lemma_agree(e.ls_col_pid@, Seq::empty(), z.ls_col_pid@, Seq::empty());
    }
    assert(agree(e.ls_col_created@, z.ls_col_created@)) by {
        reveal_strlit("CREATED");
        reveal_strlit("创建时间");
        reveal_with_fuel(tidy, 2);
        lemma_agree(e.ls_col_created@, Seq::empty(), z.ls_col_created@, Seq::empty());
    }
    assert(agree(e.st_detached@, z.st_detached@)) by {
        reveal_strlit("detached");
        reveal_strlit("分离");
        reveal_with_fuel(tidy, 2);
        lemma_agree(e.st_detached@, Seq::empty(), z.st_detached@, Seq::empty());
    }
    assert(agree(e.st_attached@, z.st_attached@)) by {
        reveal_strlit("attached");
        reveal_strlit("连接");
        reveal_with_fuel(tidy, 2);
        lemma_agree(e.st_attached@, Seq::empty(), z.st_attached@, Seq::empty());
    }
    assert(agree(e.st_multi@, z.st_multi@)) by {
        reveal_strlit("multi");
        reveal_strlit("多路");
        reveal_with_fuel(tidy, 2);
        lemma_agree(e.st_multi@, Seq::empty(), z.st_multi@, Seq::empty());
    }
    assert(agree(e.st_dead@, z.st_dead@)) by {
        reveal_strlit("dead");
        reveal_strlit("死亡");
        reveal_with_fuel(tidy, 2);
        lemma_agree(e.st_dead@, Seq::empty(), z.st_dead@, Seq::empty());
    }
}

proof fn lemma_from_st_unreachable()
    ensures
        ({
            let e = english_texts();
            let z = chinese_texts();
            &&& agree(e.st_unreachable@, z.st_unreachable@)
            &&& agree(e.outlook_no_sessions@, z.outlook_no_sessions@)
            &&& agree(e.outlook_unconnectable@, z.outlook_unconnectable@)
            &&& agree(e.outlook_available@, z.outlook_available@)
            &&& agree(e.outlook_inconclusive@, z.outlook_inconclusive@)
            &&& agree(e.d_title@, z.d_title@)
            &&& agree(e.d_fix@, z.d_fix@)
            &&& agree(e.d_summary@, z.d_summary@)
            &&& agree(e.d_notes@, z.d_notes@)
            &&& agree(e.d_name_screen@, z.d_name_screen@)
            &&& agree(e.d_name_version@, z.d_name_version@)
            &&& agree(e.d_name_socket@, z.d_name_socket@)
        }),
{
    reveal(english_texts);
    reveal(chinese_texts);
    let e = english_texts();
    let z = chinese_texts();
    assert(agree(e.st_unreachable@, z.st_unreachable@)) by {
        reveal_strlit("unreachable");
        reveal_strlit("不可达");
        reveal_with_fuel(tidy, 2);
        lemma_agree(e.st_unreachable@, Seq::empty(), z.st_unreachable@, Seq::empty());
    }
    assert(agree(e.outlook_no_sessions@, z.outlook_no_sessions@)) by {
        reveal_strlit("no sessions (exit 9)");
        reveal_strlit("无会话（exit 9）");
        reveal_with_fuel(tidy, 3);
        lemma_agree(e.outlook_no_sessions@, Seq::empty(), z.outlook_no_sessions@, Seq::empty());
    }
    assert(agree(e.outlook_unconnectable@, z.outlook_unconnectable@)) by {
        reveal_strlit("sessions exist but none connectable (exit 10)");
        reveal_strlit("有会话但均不可连接（exit 10）");
        reveal_with_fuel(tidy, 4);
        lemma_agree(e.outlook_unconnectable@, Seq::empty(), z.outlook_unconnectable@, Seq::empty());
    }
    assert(agree(e.outlook_available@, z.outlook_available@)) by {
        reveal_strlit("available (exit {0})");
        reveal_strlit("可用（exit {0}）");
        reveal_with_fuel(tidy, 3);
        lemma_agree(e.outlook_available@, seq![16], z.outlook_available@, seq![8]);
    }
    assert(agree(e.outlook_inconclusive@, z.outlook_inconclusive@)) by {
        reveal_strlit("inconclusive (exit {0}, outside the documented 9/10/11+ table)");
        reveal_strlit("无法判定（exit {0}，不在手册 9/10/11+ 表内）");
        reveal_with_fuel(tidy, 5);
        lemma_agree(e.outlook_inconclusive@, seq![19], z.outlook_inconclusive@, seq![10]);
    }
    assert(agree(e.d_title@, z.d_title@)) by {
        reveal_strlit("stui doctor — environment self-check");
        reveal_strlit("stui doctor — 环境自检");
        reveal_with_fuel(tidy, 4);
        lemma_agree(e.d_title@, Seq::empty(), z.d_title@, Seq::empty());
    }
    assert(agree(e.d_fix@, z.d_fix@)) by {
        reveal_strlit("fix: ");
        reveal_strlit("修复：");
        reveal_with_fuel(tidy, 2);
        lemma_agree(e.d_fix@, Seq::empty(), z.d_fix@, Seq::empty());
    }
    assert(agree(e.d_summary@, z.d_summary@)) by {
        reveal_strlit("{0} pass · {1} warn · {2} fail");
        reveal_strlit("{0} 项通过 · {1} 项警告 · {2} 项失败");
        reveal_with_fuel(tidy, 3);
        lemma_agree(e.d_summary@, seq![0, 11, 22], z.d_summary@, seq![0, 10, 20]);
    }
    assert(agree(e.d_notes@, z.d_notes@)) by {
        reveal_strlit("notes:");
        reveal_strlit("说明：");
        reveal_with_fuel(tidy, 2);
        lemma_agree(e.d_notes@, Seq::empty(), z.d_notes@, Seq::empty());
    }
    assert(agree(e.d_name_screen@, z.d_name_screen@)) by {
        reveal_strlit("screen executable");
        reveal_strlit("screen 可执行文件");
        reveal_with_fuel(tidy, 3);
        lemma_agree(e.d_name_screen@, Seq::empty(), z.d_name_screen@, Seq::empty());
    }
    assert(agree(e.d_name_version@, z.d_name_version@)) by {
        reveal_strlit("version");
        reveal_strlit("版本");
        reveal_with_fuel(tidy, 2);
        lemma_agree(e.d_name_version@, Seq::empty(), z.d_name_version@, Seq::empty());
    }
    assert(agree(e.d_name_socket@, z.d_name_socket@)) by {
        reveal_strlit("socket dir");
        reveal_strlit("socket 目录");
        reveal_with_fuel(tidy, 2);
        lemma_agree(e.d_name_socket@, Seq::empty(), z.d_name_socket@, Seq::empty());
    }
}

proof fn lemma_from_d_name_enum()
    ensures
        ({
            let e = english_texts();
            let z = chinese_texts();
            &&& agree(e.d_name_enum@, z.d_name_enum@)
            &&& agree(e.d_name_terminfo@, z.d_name_terminfo@)
            &&& agree(e.d_name_utf8@, z.d_name_utf8@)
            &&& agree(e.d_name_dead@, z.d_name_dead@)
            &&& agree(e.d_name_nesting@, z.d_name_nesting@)
            &&& agree(e.d_name_size@, z.d_name_size@)
            &&& agree(e.d_name_config@, z.d_name_config@)
            &&& agree(e.d_name_preview@, z.d_name_preview@)
            &&& agree(e.d_screen_missing_fix@, z.d_screen_missing_fix@)
            &&& agree(e.d_version_na@, z.d_version_na@)
            &&& agree(e.d_install_screen@, z.d_install_screen@)
            &&& agree(e.d_version_unparsed@, z.d_version_unparsed@)
        }),
{
    reveal(english_texts);
    reveal(chinese_texts);
    let e = english_texts();
    let z = chinese_texts();
    assert(agree(e.d_name_enum@, z.d_name_enum@)) by {
        reveal_strlit("session enumeration");
        reveal_strlit("会话枚举");
        reveal_with_fuel(tidy, 3);
        lemma_agree(e.d_name_enum@, Seq::empty(), z.d_name_enum@, Seq::empty());
    }
    assert(agree(e.d_name_terminfo@, z.d_name_terminfo@)) by {
        reveal_strlit("terminfo");
        reveal_with_fuel(tidy, 2);
        lemma_agree(e.d_name_terminfo@, Seq::empty(), z.d_name_terminfo@, Seq::empty());
    }
    assert(agree(e.d_name_utf8@, z.d_name_utf8@)) by {
        reveal_strlit("utf-8 locale");
        reveal_strlit("UTF-8 locale");
        reveal_with_fuel(tidy, 2);
        lemma_agree(e.d_name_utf8@, Seq::empty(), z.d_name_utf8@, Seq::empty());
    }
    assert(agree(e.d_name_dead@, z.d_name_dead@)) by {
        reveal_strlit("dead sessions");
        reveal_strlit("dead 会话");
        reveal_with_fuel(tidy, 2);
        lemma_agree(e.d_name_dead@, Seq::empty(), z.d_name_dead@, Seq::empty());
    }
    assert(agree(e.d_name_nesting@, z.d_name_nesting@)) by {
        reveal_strlit("screen nesting");
        reveal_strlit("screen 嵌套");
        reveal_with_fuel(tidy, 2);
        lemma_agree(e.d_name_nesting@, Seq::empty(), z.d_name_nesting@, Seq::empty());
    }
    assert(agree(e.d_name_size@, z.d_name_size@)) by {
        reveal_strlit("terminal size");
        reveal_strlit("终端尺寸");
        reveal_with_fuel(tidy, 2);
        lemma_agree(e.d_name_size@, Seq::empty(), z.d_name_size@, Seq::empty());
    }
    assert(agree(e.d_name_config@, z.d_name_config@)) by {
        reveal_strlit("config directory");
        reveal_strlit("配置目录");
        reveal_with_fuel(tidy, 3);
        lemma_agree(e.d_name_config@, Seq::empty(), z.d_name_config@, Seq::empty());
    }
    assert(agree(e.d_name_preview@, z.d_name_preview@)) by {
        reveal_strlit("preview ability");
        reveal_strlit("预览能力");
        reveal_with_fuel(tidy, 2);
        lemma_agree(e.d_name_preview@, Seq::empty(), z.d_name_preview@, Seq::empty());
    }
    assert(agree(e.d_screen_missing_fix@, z.d_screen_missing_fix@)) by {
        reveal_strlit("install GNU Screen: `apt install screen` (Debian/Ubuntu) | `yum install screen` (RHEL) | `brew install screen` (macOS)");
        reveal_strlit("安装 GNU Screen：`apt install screen`（Debian/Ubuntu）| `yum install screen`（RHEL）| `brew install screen`（macOS）");
        reveal_with_fuel(tidy, 9);
        lemma_agree(e.d_screen_missing_fix@, Seq::empty(), z.d_screen_missing_fix@, Seq::empty());
    }
    assert(agree(e.d_version_na@, z.d_version_na@)) by {
        reveal_strlit("screen is not available, cannot determine the version");
        reveal_strlit("screen 不可用，无法确定版本");
        reveal_with_fuel(tidy, 5);
        lemma_agree(e.d_version_na@, Seq::empty(), z.d_version_na@, Seq::empty());
    }
    assert(agree(e.d_install_screen@, z.d_install_screen@)) by {
        reveal_strlit("install GNU Screen first");
        reveal_strlit("请先安装 GNU Screen");
        reveal_with_fuel(tidy, 3);
        lemma_agree(e.d_install_screen@, Seq::empty(), z.d_install_screen@, Seq::empty());
    }
    assert(agree(e.d_version_unparsed@, z.d_version_unparsed@)) by {
        reveal_strlit("cannot parse a version number from `screen -v` output: {0}");
        reveal_strlit("无法从 `screen -v` 输出解析版本号：{0}");
        reveal_with_fuel(tidy, 5);
        lemma_agree(e.d_version_unparsed@, seq![55], z.d_version_unparsed@, seq![24]);
    }
}

proof fn lemma_from_d_value_empty()
    ensures
        ({
            let e = english_texts();
            let z = chinese_texts();
            &&& agree(e.d_value_empty@, z.d_value_empty@)
            &&& agree(e.d_caps_live_fix@, z.d_caps_live_fix@)
            &&& agree(e.d_q_ok@, z.d_q_ok@)
            &&& agree(e.d_q_no@, z.d_q_no@)
            &&& agree(e.d_q_no_fix@, z.d_q_no_fix@)
            &&& agree(e.d_q_unknown@, z.d_q_unknown@)
            &&& agree(e.d_q_unknown_fix@, z.d_q_unknown_fix@)
        }),
{
    reveal(english_texts);
    reveal(chinese_texts);
    let e = english_texts();
    let z = chinese_texts();
    assert(agree(e.d_value_empty@, z.d_value_empty@)) by {
        reveal_strlit("<empty>");
        reveal_strlit("<空>");
        reveal_with_fuel(tidy, 2);
        lemma_agree(e.d_value_empty@, Seq::empty(), z.d_value_empty@, Seq::empty());
    }
    assert(agree(e.d_caps_live_fix@, z.d_caps_live_fix@)) by {
        reveal_strlit("capability flags still come from live probes, so stui keeps working");
        reveal_strlit("能力开关来自实跑探测，stui 仍可正常工作");
        reveal_with_fuel(tidy, 6);
        lemma_agree(e.d_caps_live_fix@, Seq::empty(), z.d_caps_live_fix@, Seq::empty());
    }
    assert(agree(e.d_q_ok@, z.d_q_ok@)) by {
        reveal_strlit("{0}; `-Q` query available");
        reveal_strlit("{0}；`-Q` 查询可用");
        reveal_with_fuel(tidy, 3);
        lemma_agree(e.d_q_ok@, seq![0], z.d_q_ok@, seq![0]);
    }
    assert(agree(e.d_q_no@, z.d_q_no@)) by {
        reveal_strlit("{0}; `-Q` query unavailable on this build — window count/title need `-Q` and will be hidden. Core functions are unaffected.");
        reveal_strlit("{0}；此版本不支持 `-Q` 查询 —— 窗口数/标题依赖 `-Q`，将不显示。核心功能不受影响。");
        reveal_with_fuel(tidy, 9);
        lemma_agree(e.d_q_no@, seq![0], z.d_q_no@, seq![0]);
    }
    assert(agree(e.d_q_no_fix@, z.d_q_no_fix@)) by {
        reveal_strlit("no action needed; this is expected below Screen 4.6");
        reveal_strlit("无需处理；Screen 4.6 以下属正常现象");
        reveal_with_fuel(tidy, 5);
        lemma_agree(e.d_q_no_fix@, Seq::empty(), z.d_q_no_fix@, Seq::empty());
    }
    assert(agree(e.d_q_unknown@, z.d_q_unknown@)) by {
        reveal_strlit("{0}; could not verify `-Q` (no session was available to test with)");
        reveal_strlit("{0}；无法验证 `-Q`（没有可用会话来测试）");
        reveal_with_fuel(tidy, 6);
        lemma_agree(e.d_q_unknown@, seq![0], z.d_q_unknown@, seq![0]);
    }
    assert(agree(e.d_q_unknown_fix@, z.d_q_unknown_fix@)) by {
        reveal_strlit("run `stui doctor` again while a session exists to get a definitive answer");
        reveal_strlit("存在会话时重新运行 `stui doctor` 可得到确定结论");
        reveal_with_fuel(tidy, 6);
        lemma_agree(e.d_q_unknown_fix@, Seq::empty(), z.d_q_unknown_fix@, Seq::empty());
    }
}

proof fn lemma_from_d_ls_failed()
    ensures
        ({
            let e = english_texts();
            let z = chinese_texts();
            &&& agree(e.d_ls_failed@, z.d_ls_failed@)
            &&& agree(e.d_screendir_fix@, z.d_screendir_fix@)
            &&& agree(e.d_screendir_empty@, z.d_screendir_empty@)
        }),
{
    reveal(english_texts);
    reveal(chinese_texts);
    let e = english_texts();
    let z = chinese_texts();
    assert(agree(e.d_ls_failed@, z.d_ls_failed@)) by {
        reveal_strlit("`screen -ls` failed: {0}");
        reveal_strlit("`screen -ls` 失败：{0}");
        reveal_with_fuel(tidy, 3);
        lemma_agree(e.d_ls_failed@, seq![21], z.d_ls_failed@, seq![16]);
    }
    assert(agree(e.d_screendir_fix@, z.d_screendir_fix@)) by {
        reveal_strlit("check that $SCREENDIR and $TMPDIR are unset or non-empty — an empty value breaks every screen call; also verify the socket directory permissions");
        reveal_strlit("确认 $SCREENDIR 与 $TMPDIR 未设置或非空 —— 空值会让所有 screen 调用失败；同时检查 socket 目录权限");
        reveal_with_fuel(tidy, 11);
        lemma_agree(e.d_screendir_fix@, Seq::empty(), z.d_screendir_fix@, Seq::empty());
    }
    assert(agree(e.d_screendir_empty@, z.d_screendir_empty@)) by {
        reveal_strlit("`-ls` works, but $SCREENDIR is exported and EMPTY. It happens to be tolerated on this build (screen falls back to `$TMPDIR/.screen`), yet an empty SCREENDIR has caused `Cannot access ...` on other builds.");
        reveal_strlit("`-ls` 可用，但 $SCREENDIR 被导出为空。当前版本恰好容忍此情况（screen 回退到 `$TMPDIR/.screen`），但在其他版本上空 SCREENDIR 曾导致 `Cannot access ...`。");
        reveal_with_fuel(tidy, 14);
        lemma_agree(e.d_screendir_empty@, Seq::empty(), z.d_screendir_empty@, Seq::empty());
    }
}

proof fn lemma_from_d_screendir_empty_fix()
    ensures
        ({
            let e = english_texts();
            let z = chinese_texts();
            &&& agree(e.d_screendir_empty_fix@, z.d_screendir_empty_fix@)
            &&& agree(e.d_socket_ok@, z.d_socket_ok@)
            &&& agree(e.d_not_reported@, z.d_not_reported@)
            &&& agree(e.d_enum_cannot@, z.d_enum_cannot@)
            &&& agree(e.d_fix_screen_first@, z.d_fix_screen_first@)
            &&& agree(e.d_enum_exit10@, z.d_enum_exit10@)
            &&& agree(e.d_enum_perm_fix@, z.d_enum_perm_fix@)
        }),
{
    reveal(english_texts);
    reveal(chinese_texts);
    let e = english_texts();
    let z = chinese_texts();
    assert(agree(e.d_screendir_empty_fix@, z.d_screendir_empty_fix@)) by {
        reveal_strlit("unset SCREENDIR, or export it with a real path");
        reveal_strlit("取消 SCREENDIR，或导出为真实路径");
        reveal_with_fuel(tidy, 4);
        lemma_agree(e.d_screendir_empty_fix@, Seq::empty(), z.d_screendir_empty_fix@, Seq::empty());
    }
    assert(agree(e.d_socket_ok@, z.d_socket_ok@)) by {
        reveal_strlit("`-ls` reachable; socket dir {0}");
        reveal_strlit("`-ls` 可达；socket 目录 {0}");
        reveal_with_fuel(tidy, 3);
        lemma_agree(e.d_socket_ok@, seq![28], z.d_socket_ok@, seq![19]);
    }
    assert(agree(e.d_not_reported@, z.d_not_reported@)) by {
        reveal_strlit("not reported by `-ls`");
        reveal_strlit("`-ls` 未报告");
        reveal_with_fuel(tidy, 3);
        lemma_agree(e.d_not_reported@, Seq::empty(), z.d_not_reported@, Seq::empty());
    }
    assert(agree(e.d_enum_cannot@, z.d_enum_cannot@)) by {
        reveal_strlit("cannot run `screen -q -ls`");
        reveal_strlit("无法运行 `screen -q -ls`");
        reveal_with_fuel(tidy, 3);
        lemma_agree(e.d_enum_cannot@, Seq::empty(), z.d_enum_cannot@, Seq::empty());
    }
    assert(agree(e.d_fix_screen_first@, z.d_fix_screen_first@)) by {
        reveal_strlit("fix the `screen executable` check first");
        reveal_strlit("请先修复「screen 可执行文件」检查项");
        reveal_with_fuel(tidy, 4);
        lemma_agree(e.d_fix_screen_first@, Seq::empty(), z.d_fix_screen_first@, Seq::empty());
    }
    assert(agree(e.d_enum_exit10@, z.d_enum_exit10@)) by {
        reveal_strlit("`-q -ls` exit 10: sessions exist but none are connectable ({0} listed); the manual flags this as a permissions problem");
        reveal_strlit("`-q -ls` 退出码 10：有会话但均不可连接（列出 {0} 条）；手册将此归为权限问题");
        reveal_with_fuel(tidy, 9);
        lemma_agree(e.d_enum_exit10@, seq![59], z.d_enum_exit10@, seq![29]);
    }
    assert(agree(e.d_enum_perm_fix@, z.d_enum_perm_fix@)) by {
        reveal_strlit("check ownership and permissions of the socket directory");
        reveal_strlit("检查 socket 目录的属主与权限");
        reveal_with_fuel(tidy, 5);
        lemma_agree(e.d_enum_perm_fix@, Seq::empty(), z.d_enum_perm_fix@, Seq::empty());
    }
}

proof fn lemma_from_d_enum_exit9()
    ensures
        ({
            let e = english_texts();
            let z = chinese_texts();
            &&& agree(e.d_enum_exit9@, z.d_enum_exit9@)
            &&& agree(e.d_enum_mismatch@, z.d_enum_mismatch@)
        }),
{
    reveal(english_texts);
    reveal(chinese_texts);
    let e = english_texts();
    let z = chinese_texts();
    assert(agree(e.d_enum_exit9@, z.d_enum_exit9@)) by {
        reveal_strlit("`-q -ls` said no sessions (exit 9) but `-ls` listed {0}; trusting `-ls`. The documented 9/10/11+ exit-code table is not reliable on every build.");
        reveal_strlit("`-q -ls` 报告无会话（退出码 9）但 `-ls` 列出 {0} 条；以 `-ls` 为准。手册的 9/10/11+ 退出码表并非在所有版本上都可靠。");
        reveal_with_fuel(tidy, 11);
        lemma_agree(e.d_enum_exit9@, seq![52], z.d_enum_exit9@, seq![32]);
    }
    assert(agree(e.d_enum_mismatch@, z.d_enum_mismatch@)) by {
        reveal_strlit("`-q -ls` reported {0} session(s) but `-ls` detailed {1}; trusting `-ls`");
        reveal_strlit("`-q -ls` 报告 {0} 个会话但 `-ls` 明细为 {1} 条；以 `-ls` 为准");
        reveal_with_fuel(tidy, 6);
        lemma_agree(e.d_enum_mismatch@, seq![18, 52], z.d_enum_mismatch@, seq![12, 31]);
    }
}

proof fn lemma_from_d_enum_code()
    ensures
        ({
            let e = english_texts();
            let z = chinese_texts();
            &&& agree(e.d_enum_code@, z.d_enum_code@)
            &&& agree(e.d_enum_code_fix@, z.d_enum_code_fix@)
            &&& agree(e.d_enum_ok@, z.d_enum_ok@)
            &&& agree(e.d_ti_present@, z.d_ti_present@)
        }),
{
    reveal(english_texts);
    reveal(chinese_texts);
    let e = english_texts();
    let z = chinese_texts();
    assert(agree(e.d_enum_code@, z.d_enum_code@)) by {
        reveal_strlit("`-q -ls` exited {0}, which is outside the documented 9/10/11+ table (measured on Screen 4.00.03: 8 with no sessions). stui falls back to parsing `-ls` text; {1} session(s) found.");
        reveal_strlit("`-q -ls` 退出码 {0}，不在手册 9/10/11+ 表内（Screen 4.00.03 实测：无会话时为 8）。stui 回退为解析 `-ls` 文本；找到 {1} 个会话。");
        reveal_with_fuel(tidy, 13);
        lemma_agree(e.d_enum_code@, seq![16, 157], z.d_enum_code@, seq![13, 84]);
    }
    assert(agree(e.d_enum_code_fix@, z.d_enum_code_fix@)) by {
        reveal_strlit("no action needed; recorded for the version-capability matrix");
        reveal_strlit("无需处理；已记录到版本能力矩阵");
        reveal_with_fuel(tidy, 5);
        lemma_agree(e.d_enum_code_fix@, Seq::empty(), z.d_enum_code_fix@, Seq::empty());
    }
    assert(agree(e.d_enum_ok@, z.d_enum_ok@)) by {
        reveal_strlit("{0} session(s) · {1}");
        reveal_strlit("{0} 个会话 · {1}");
        reveal_with_fuel(tidy, 3);
        lemma_agree(e.d_enum_ok@, seq![0, 17], z.d_enum_ok@, seq![0, 10]);
    }
    assert(agree(e.d_ti_present@, z.d_ti_present@)) by {
        reveal_strlit("`screen-256color` is present");
        reveal_strlit("`screen-256color` 存在");
        reveal_with_fuel(tidy, 3);
        lemma_agree(e.d_ti_present@, Seq::empty(), z.d_ti_present@, Seq::empty());
    }
}

proof fn lemma_from_d_ti_failed()
    ensures
        ({
            let e = english_texts();
            let z = chinese_texts();
            &&& agree(e.d_ti_failed@, z.d_ti_failed@)
            &&& agree(e.d_ti_fix@, z.d_ti_fix@)
            &&& agree(e.d_ti_missing@, z.d_ti_missing@)
            &&& agree(e.d_ti_missing_fix@, z.d_ti_missing_fix@)
            &&& agree(e.d_utf8_none@, z.d_utf8_none@)
        }),
{
    reveal(english_texts);
    reveal(chinese_texts);
    let e = english_texts();
    let z = chinese_texts();
    assert(agree(e.d_ti_failed@, z.d_ti_failed@)) by {
        reveal_strlit("`infocmp screen-256color` failed (exit {0}); stui degrades to the plain `screen` terminfo, and 256-color output inside sessions may not render");
        reveal_strlit("`infocmp screen-256color` 失败（退出码 {0}）；stui 退回普通 `screen` terminfo，会话内的 256 色输出可能无法渲染");
        reveal_with_fuel(tidy, 10);
        lemma_agree(e.d_ti_failed@, seq![39], z.d_ti_failed@, seq![33]);
    }
    assert(agree(e.d_ti_fix@, z.d_ti_fix@)) by {
        reveal_strlit("install the ncurses terminfo extras: `apt install ncurses-term` (Debian/Ubuntu)");
        reveal_strlit("安装 ncurses terminfo 扩展：`apt install ncurses-term`（Debian/Ubuntu）");
        reveal_with_fuel(tidy, 6);
        lemma_agree(e.d_ti_fix@, Seq::empty(), z.d_ti_fix@, Seq::empty());
    }
    assert(agree(e.d_ti_missing@, z.d_ti_missing@)) by {
        reveal_strlit("`infocmp` is not available, cannot verify terminfo");
        reveal_strlit("`infocmp` 不可用，无法验证 terminfo");
        reveal_with_fuel(tidy, 5);
        lemma_agree(e.d_ti_missing@, Seq::empty(), z.d_ti_missing@, Seq::empty());
    }
    assert(agree(e.d_ti_missing_fix@, z.d_ti_missing_fix@)) by {
        reveal_strlit("install ncurses-bin (Debian/Ubuntu) if you want this check to work");
        reveal_strlit("如需此检查生效请安装 ncurses-bin（Debian/Ubuntu）");
        reveal_with_fuel(tidy, 6);
        lemma_agree(e.d_ti_missing_fix@, Seq::empty(), z.d_ti_missing_fix@, Seq::empty());
    }
    assert(agree(e.d_utf8_none@, z.d_utf8_none@)) by {
        reveal_strlit("no locale variable is set");
        reveal_strlit("未设置任何 locale 变量");
        reveal_with_fuel(tidy, 3);
        lemma_agree(e.d_utf8_none@, Seq::empty(), z.d_utf8_none@, Seq::empty());
    }
}

proof fn lemma_from_d_utf8_none_fix()
    ensures
        ({
            let e = english_texts();
            let z = chinese_texts();
            &&& agree(e.d_utf8_none_fix@, z.d_utf8_none_fix@)
            &&& agree(e.d_utf8_not@, z.d_utf8_not@)
            &&& agree(e.d_utf8_fix@, z.d_utf8_fix@)
            &&& agree(e.d_cannot_enum@, z.d_cannot_enum@)
            &&& agree(e.d_dead_none@, z.d_dead_none@)
            &&& agree(e.d_dead_unreachable@, z.d_dead_unreachable@)
        }),
{
    reveal(english_texts);
    reveal(chinese_texts);
    let e = english_texts();
    let z = chinese_texts();
    assert(agree(e.d_utf8_none_fix@, z.d_utf8_none_fix@)) by {
        reveal_strlit("export LANG=<your>.UTF-8; CJK and emoji session names may otherwise misalign");
        reveal_strlit("export LANG=<你的>.UTF-8；否则 CJK/emoji 会话名可能错位");
        reveal_with_fuel(tidy, 6);
        lemma_agree(e.d_utf8_none_fix@, Seq::empty(), z.d_utf8_none_fix@, Seq::empty());
    }
    assert(agree(e.d_utf8_not@, z.d_utf8_not@)) by {
        reveal_strlit("locale is not UTF-8 ({0}); CJK/emoji session names may render wrong or misalign");
        reveal_strlit("locale 不是 UTF-8（{0}）；CJK/emoji 会话名可能显示错误或错位");
        reveal_with_fuel(tidy, 6);
        lemma_agree(e.d_utf8_not@, seq![21], z.d_utf8_not@, seq![16]);
    }
    assert(agree(e.d_utf8_fix@, z.d_utf8_fix@)) by {
        reveal_strlit("export LANG=<your>.UTF-8 (suggested, not applied): add `defutf8 on` to ~/.screenrc — stui never edits your screenrc");
        reveal_strlit("export LANG=<你的>.UTF-8（仅建议，不会替你执行）：在 ~/.screenrc 加 `defutf8 on` —— stui 绝不修改你的 screenrc");
        reveal_with_fuel(tidy, 9);
        lemma_agree(e.d_utf8_fix@, Seq::empty(), z.d_utf8_fix@, Seq::empty());
    }
    assert(agree(e.d_cannot_enum@, z.d_cannot_enum@)) by {
        reveal_strlit("cannot enumerate sessions");
        reveal_strlit("无法枚举会话");
        reveal_with_fuel(tidy, 3);
        lemma_agree(e.d_cannot_enum@, Seq::empty(), z.d_cannot_enum@, Seq::empty());
    }
    assert(agree(e.d_dead_none@, z.d_dead_none@)) by {
        reveal_strlit("none");
        reveal_strlit("无");
        reveal_with_fuel(tidy, 2);
        lemma_agree(e.d_dead_none@, Seq::empty(), z.d_dead_none@, Seq::empty());
    }
    assert(agree(e.d_dead_unreachable@, z.d_dead_unreachable@)) by {
        reveal_strlit("none dead, but {0} unreachable (display only, never connectable)");
        reveal_strlit("无 dead，但有 {0} 个 unreachable（仅展示，绝不连接）");
        reveal_with_fuel(tidy, 6);
        lemma_agree(e.d_dead_unreachable@, seq![15], z.d_dead_unreachable@, seq![10]);
    }
}

proof fn lemma_from_d_dead_list()
    ensures
        ({
            let e = english_texts();
            let z = chinese_texts();
            &&& agree(e.d_dead_list@, z.d_dead_list@)
            &&& agree(e.d_dead_fix@, z.d_dead_fix@)
            &&& agree(e.d_not_inside@, z.d_not_inside@)
            &&& agree(e.d_inside@, z.d_inside@)
            &&& agree(e.d_inside_fix@, z.d_inside_fix@)
        }),
{
    reveal(english_texts);
    reveal(chinese_texts);
    let e = english_texts();
    let z = chinese_texts();
    assert(agree(e.d_dead_list@, z.d_dead_list@)) by {
        reveal_strlit("{0} dead session(s): {1} — they pollute the list and can be mis-clicked");
        reveal_strlit("{0} 个 dead 会话：{1} —— 会污染列表且可能误触");
        reveal_with_fuel(tidy, 6);
        lemma_agree(e.d_dead_list@, seq![0, 21], z.d_dead_list@, seq![0, 14]);
    }
    assert(agree(e.d_dead_fix@, z.d_dead_fix@)) by {
        reveal_strlit("run `screen -wipe` (or press `W` in the TUI) — stui always asks for confirmation");
        reveal_strlit("运行 `screen -wipe`（或在 TUI 中按 `W`）—— stui 总会先要求确认");
        reveal_with_fuel(tidy, 7);
        lemma_agree(e.d_dead_fix@, Seq::empty(), z.d_dead_fix@, Seq::empty());
    }
    assert(agree(e.d_not_inside@, z.d_not_inside@)) by {
        reveal_strlit("not running inside a screen session ($STY unset)");
        reveal_strlit("不在 screen 会话内运行（$STY 未设置）");
        reveal_with_fuel(tidy, 5);
        lemma_agree(e.d_not_inside@, Seq::empty(), z.d_not_inside@, Seq::empty());
    }
    assert(agree(e.d_inside@, z.d_inside@)) by {
        reveal_strlit("running inside a screen session (STY={0}); screen refuses to attach from within itself");
        reveal_strlit("正运行在 screen 会话内（STY={0}）；screen 拒绝从自身内部连接");
        reveal_with_fuel(tidy, 7);
        lemma_agree(e.d_inside@, seq![37], z.d_inside@, seq![20]);
    }
    assert(agree(e.d_inside_fix@, z.d_inside_fix@)) by {
        reveal_strlit("detach first, or use shared attachment (`-x`) which is the only mode that works from inside");
        reveal_strlit("先 detach，或使用共享连接（`-x`）—— 唯一能从内部使用的方式");
        reveal_with_fuel(tidy, 7);
        lemma_agree(e.d_inside_fix@, Seq::empty(), z.d_inside_fix@, Seq::empty());
    }
}

proof fn lemma_from_d_size_small()
    ensures
        ({
            let e = english_texts();
            let z = chinese_texts();
            &&& agree(e.d_size_small@, z.d_size_small@)
            &&& agree(e.d_size_err@, z.d_size_err@)
            &&& agree(e.d_config_missing@, z.d_config_missing@)
            &&& agree(e.d_config_missing_fix@, z.d_config_missing_fix@)
        }),
{
    reveal(english_texts);
    reveal(chinese_texts);
    let e = english_texts();
    let z = chinese_texts();
    assert(agree(e.d_size_small@, z.d_size_small@)) by {
        reveal_strlit("{0}x{1} — very small; the TUI would fall back to the minimal layout (only affects the TUI, not `ls` or `doctor`)");
        reveal_strlit("{0}x{1} —— 过小；TUI 将回退到最小布局（只影响 TUI，不影响 `ls` 与 `doctor`）");
        reveal_with_fuel(tidy, 9);
        lemma_agree(e.d_size_small@, seq![0, 4], z.d_size_small@, seq![0, 4]);
    }
    assert(agree(e.d_size_err@, z.d_size_err@)) by {
        reveal_strlit("cannot determine terminal size ({0}); stdout is probably not a TTY — only the TUI needs it, `ls` and `doctor` do not");
        reveal_strlit("无法确定终端尺寸（{0}）；stdout 可能不是 TTY —— 只有 TUI 需要，`ls` 与 `doctor` 不需要");
        reveal_with_fuel(tidy, 9);
        lemma_agree(e.d_size_err@, seq![32], z.d_size_err@, seq![9]);
    }
    assert(agree(e.d_config_missing@, z.d_config_missing@)) by {
        reveal_strlit("$HOME is unset and neither $SCREEN_TUI_HOME nor $XDG_CONFIG_HOME is usable");
        reveal_strlit("$HOME 未设置，且 $SCREEN_TUI_HOME 与 $XDG_CONFIG_HOME 均不可用");
        reveal_with_fuel(tidy, 6);
        lemma_agree(e.d_config_missing@, Seq::empty(), z.d_config_missing@, Seq::empty());
    }
    assert(agree(e.d_config_missing_fix@, z.d_config_missing_fix@)) by {
        reveal_strlit("set $HOME, or point $SCREEN_TUI_HOME at a writable directory");
        reveal_strlit("设置 $HOME，或将 $SCREEN_TUI_HOME 指向可写目录");
        reveal_with_fuel(tidy, 5);
        lemma_agree(e.d_config_missing_fix@, Seq::empty(), z.d_config_missing_fix@, Seq::empty());
    }
}

proof fn lemma_from_d_config_ok()
    ensures
        ({
            let e = english_texts();
            let z = chinese_texts();
            &&& agree(e.d_config_ok@, z.d_config_ok@)
            &&& agree(e.d_config_fail@, z.d_config_fail@)
            &&& agree(e.d_config_perm_fix@, z.d_config_perm_fix@)
            &&& agree(e.d_no_session_probe@, z.d_no_session_probe@)
            &&& agree(e.d_no_session_probe_fix@, z.d_no_session_probe_fix@)
            &&& agree(e.d_hist_yes@, z.d_hist_yes@)
            &&& agree(e.d_hist_no@, z.d_hist_no@)
            &&& agree(e.d_hist_unknown@, z.d_hist_unknown@)
        }),
{
    reveal(english_texts);
    reveal(chinese_texts);
    let e = english_texts();
    let z = chinese_texts();
    assert(agree(e.d_config_ok@, z.d_config_ok@)) by {
        reveal_strlit("{0} — writable, mode 0700");
        reveal_strlit("{0} —— 可写，权限 0700");
        reveal_with_fuel(tidy, 3);
        lemma_agree(e.d_config_ok@, seq![0], z.d_config_ok@, seq![0]);
    }
    assert(agree(e.d_config_fail@, z.d_config_fail@)) by {
        reveal_strlit("{0} — write probe failed: {1}");
        reveal_strlit("{0} —— 写入探测失败：{1}");
        reveal_with_fuel(tidy, 3);
        lemma_agree(e.d_config_fail@, seq![0, 26], z.d_config_fail@, seq![0, 14]);
    }
    assert(agree(e.d_config_perm_fix@, z.d_config_perm_fix@)) by {
        reveal_strlit("check ownership and permissions of {0}");
        reveal_strlit("检查 {0} 的属主与权限");
        reveal_with_fuel(tidy, 4);
        lemma_agree(e.d_config_perm_fix@, seq![35], z.d_config_perm_fix@, seq![3]);
    }
    assert(agree(e.d_no_session_probe@, z.d_no_session_probe@)) by {
        reveal_strlit("no connectable session available to test `-X hardcopy`; capability left unverified (nothing was written to disk)");
        reveal_strlit("没有可连接会话来测试 `-X hardcopy`；能力未验证（未写盘）");
        reveal_with_fuel(tidy, 9);
        lemma_agree(e.d_no_session_probe@, Seq::empty(), z.d_no_session_probe@, Seq::empty());
    }
    assert(agree(e.d_no_session_probe_fix@, z.d_no_session_probe_fix@)) by {
        reveal_strlit("create a session (`screen -dmS probe sleep 60`) and re-run doctor to verify preview");
        reveal_strlit("创建一个会话（`screen -dmS probe sleep 60`）后重新运行 doctor 以验证预览");
        reveal_with_fuel(tidy, 7);
        lemma_agree(e.d_no_session_probe_fix@, Seq::empty(), z.d_no_session_probe_fix@, Seq::empty());
    }
    assert(agree(e.d_hist_yes@, z.d_hist_yes@)) by {
        reveal_strlit("history buffer (-h) available");
        reveal_strlit("历史缓冲（-h）可用");
        reveal_with_fuel(tidy, 3);
        lemma_agree(e.d_hist_yes@, Seq::empty(), z.d_hist_yes@, Seq::empty());
    }
    assert(agree(e.d_hist_no@, z.d_hist_no@)) by {
        reveal_strlit("history buffer (-h) unavailable");
        reveal_strlit("历史缓冲（-h）不可用");
        reveal_with_fuel(tidy, 3);
        lemma_agree(e.d_hist_no@, Seq::empty(), z.d_hist_no@, Seq::empty());
    }
    assert(agree(e.d_hist_unknown@, z.d_hist_unknown@)) by {
        reveal_strlit("history buffer (-h) unverified");
        reveal_strlit("历史缓冲（-h）未验证");
        reveal_with_fuel(tidy, 3);
        lemma_agree(e.d_hist_unknown@, Seq::empty(), z.d_hist_unknown@, Seq::empty());
    }
}

proof fn lemma_from_d_hc_ok()
    ensures
        ({
            let e = english_texts();
            let z = chinese_texts();
            &&& agree(e.d_hc_ok@, z.d_hc_ok@)
            &&& agree(e.d_hc_no@, z.d_hc_no@)
            &&& agree(e.d_hc_unknown@, z.d_hc_unknown@)
            &&& agree(e.d_hc_probe_failed@, z.d_hc_probe_failed@)
        }),
{
    reveal(english_texts);
    reveal(chinese_texts);
    let e = english_texts();
    let z = chinese_texts();
    assert(agree(e.d_hc_ok@, z.d_hc_ok@)) by {
        reveal_strlit("`-X hardcopy` works on {0} ({1})");
        reveal_strlit("`-X hardcopy` 在 {0} 上可用（{1}）");
        reveal_with_fuel(tidy, 4);
        lemma_agree(e.d_hc_ok@, seq![23, 28], z.d_hc_ok@, seq![16, 24]);
    }
    assert(agree(e.d_hc_no@, z.d_hc_no@)) by {
        reveal_strlit("`-X hardcopy` is unsupported on this build ({0}); the preview pane will show metadata only — never stale or fabricated content");
        reveal_strlit("此版本不支持 `-X hardcopy`（{0}）；预览面板将只显示元数据 —— 绝不显示过期或伪造内容");
        reveal_with_fuel(tidy, 9);
        lemma_agree(e.d_hc_no@, seq![44], z.d_hc_no@, seq![21]);
    }
    assert(agree(e.d_hc_unknown@, z.d_hc_unknown@)) by {
        reveal_strlit("could not verify `-X hardcopy` ({0}); preview degrades to metadata only");
        reveal_strlit("无法验证 `-X hardcopy`（{0}）；预览降级为仅元数据");
        reveal_with_fuel(tidy, 6);
        lemma_agree(e.d_hc_unknown@, seq![32], z.d_hc_unknown@, seq![19]);
    }
    assert(agree(e.d_hc_probe_failed@, z.d_hc_probe_failed@)) by {
        reveal_strlit("hardcopy probe failed: {0}; preview degrades to metadata only");
        reveal_strlit("hardcopy 探测失败：{0}；预览降级为仅元数据");
        reveal_with_fuel(tidy, 5);
        lemma_agree(e.d_hc_probe_failed@, seq![23], z.d_hc_probe_failed@, seq![14]);
    }
}

proof fn lemma_from_d_note11()
    ensures
        ({
            let e = english_texts();
            let z = chinese_texts();
            &&& agree(e.d_note11@, z.d_note11@)
            &&& agree(e.name_empty@, z.name_empty@)
            &&& agree(e.name_leading_dash@, z.name_leading_dash@)
            &&& agree(e.name_bad_char@, z.name_bad_char@)
            &&& agree(e.name_too_long@, z.name_too_long@)
            &&& agree(e.f_name@, z.f_name@)
            &&& agree(e.f_dir@, z.f_dir@)
            &&& agree(e.f_command@, z.f_command@)
            &&& agree(e.dir_empty@, z.dir_empty@)
            &&& agree(e.not_a_directory@, z.not_a_directory@)
        }),
{
    reveal(english_texts);
    reveal(chinese_texts);
    let e = english_texts();
    let z = chinese_texts();
    assert(agree(e.d_note11@, z.d_note11@)) by {
        reveal_strlit("check 11 is the only side-effecting one: it writes a real `-X hardcopy` to a 0600 temp file and removes it immediately.");
        reveal_strlit("第 11 项是唯一有副作用的检查：它会向一个 0600 临时文件写入真实的 `-X hardcopy`，读完立即删除。");
        reveal_with_fuel(tidy, 9);
        lemma_agree(e.d_note11@, Seq::empty(), z.d_note11@, Seq::empty());
    }
    assert(agree(e.name_empty@, z.name_empty@)) by {
        reveal_strlit("name must not be empty");
        reveal_strlit("名字不能为空");
        reveal_with_fuel(tidy, 3);
        lemma_agree(e.name_empty@, Seq::empty(), z.name_empty@, Seq::empty());
    }
    assert(agree(e.name_leading_dash@, z.name_leading_dash@)) by {
        reveal_strlit("name must not start with '-' (screen would read it as an option)");
        reveal_strlit("名字不能以 '-' 开头（screen 会把它当选项）");
        reveal_with_fuel(tidy, 6);
        lemma_agree(e.name_leading_dash@, Seq::empty(), z.name_leading_dash@, Seq::empty());
    }
    assert(agree(e.name_bad_char@, z.name_bad_char@)) by {
        reveal_strlit("name must not contain whitespace or control characters (found {0})");
        reveal_strlit("名字不能包含空白或控制字符（发现 {0}）");
        reveal_with_fuel(tidy, 6);
        lemma_agree(e.name_bad_char@, seq![62], z.name_bad_char@, seq![17]);
    }
    assert(agree(e.name_too_long@, z.name_too_long@)) by {
        reveal_strlit("name is longer than {0} characters");
        reveal_strlit("名字超过 {0} 个字符");
        reveal_with_fuel(tidy, 4);
        lemma_agree(e.name_too_long@, seq![20], z.name_too_long@, seq![5]);
    }
    assert(agree(e.f_name@, z.f_name@)) by {
        reveal_strlit("Name");
        reveal_strlit("名字");
        reveal_with_fuel(tidy, 2);
        lemma_agree(e.f_name@, Seq::empty(), z.f_name@, Seq::empty());
    }
    assert(agree(e.f_dir@, z.f_dir@)) by {
        reveal_strlit("Directory");
        reveal_strlit("目录");
        reveal_with_fuel(tidy, 2);
        lemma_agree(e.f_dir@, Seq::empty(), z.f_dir@, Seq::empty());
    }
    assert(agree(e.f_command@, z.f_command@)) by {
        reveal_strlit("Command");
        reveal_strlit("命令");
        reveal_with_fuel(tidy, 2);
        lemma_agree(e.f_command@, Seq::empty(), z.f_command@, Seq::empty());
    }
    assert(agree(e.dir_empty@, z.dir_empty@)) by {
        reveal_strlit("directory must not be empty");
        reveal_strlit("目录不能为空");
        reveal_with_fuel(tidy, 3);
        lemma_agree(e.dir_empty@, Seq::empty(), z.dir_empty@, Seq::empty());
    }
    assert(agree(e.not_a_directory@, z.not_a_directory@)) by {
        reveal_strlit("not a directory: {0}");
        reveal_strlit("不是目录：{0}");
        reveal_with_fuel(tidy, 3);
        lemma_agree(e.not_a_directory@, seq![17], z.not_a_directory@, seq![5]);
    }
}

proof fn lemma_from_duplicate_note()
    ensures
        ({
            let e = english_texts();
            let z = chinese_texts();
            &&& agree(e.duplicate_note@, z.duplicate_note@)
            &&& agree(e.name_was_taken@, z.name_was_taken@)
            &&& agree(e.created@, z.created@)
            &&& agree(e.created_with_hint@, z.created_with_hint@)
            &&& agree(e.skip_not_listed@, z.skip_not_listed@)
            &&& agree(e.skip_not_unique@, z.skip_not_unique@)
            &&& agree(e.not_entering@, z.not_entering@)
            &&& agree(e.create_failed@, z.create_failed@)
            &&& agree(e.screen_refused@, z.screen_refused@)
            &&& agree(e.screen_no_diagnostic@, z.screen_no_diagnostic@)
            &&& agree(e.act_detach@, z.act_detach@)
            &&& agree(e.act_kill@, z.act_kill@)
        }),
{
    reveal(english_texts);
    reveal(chinese_texts);
    let e = english_texts();
    let z = chinese_texts();
    assert(agree(e.duplicate_note@, z.duplicate_note@)) by {
        reveal_strlit("a session named '{0}' already exists; address it as <pid>.{0}");
        reveal_strlit("同名会话 '{0}' 已存在；请用 <pid>.{0} 寻址");
        reveal_with_fuel(tidy, 5);
        lemma_agree(e.duplicate_note@, seq![17], z.duplicate_note@, seq![6]);
    }
    assert(agree(e.name_was_taken@, z.name_was_taken@)) by {
        reveal_strlit("'{0}' was taken; used '{1}'");
        reveal_strlit("'{0}' 已被占用；已使用 '{1}'");
        reveal_with_fuel(tidy, 3);
        lemma_agree(e.name_was_taken@, seq![1, 23], z.name_was_taken@, seq![1, 16]);
    }
    assert(agree(e.created@, z.created@)) by {
        reveal_strlit("created '{0}'");
        reveal_strlit("已创建 '{0}'");
        reveal_with_fuel(tidy, 2);
        lemma_agree(e.created@, seq![9], z.created@, seq![5]);
    }
    assert(agree(e.created_with_hint@, z.created_with_hint@)) by {
        reveal_strlit("created '{0}' ({1})");
        reveal_strlit("已创建 '{0}'（{1}）");
        reveal_with_fuel(tidy, 3);
        lemma_agree(e.created_with_hint@, seq![9, 15], z.created_with_hint@, seq![5, 10]);
    }
    assert(agree(e.skip_not_listed@, z.skip_not_listed@)) by {
        reveal_strlit("it is not in the session list yet");
        reveal_strlit("它尚未出现在会话列表中");
        reveal_with_fuel(tidy, 4);
        lemma_agree(e.skip_not_listed@, Seq::empty(), z.skip_not_listed@, Seq::empty());
    }
    assert(agree(e.skip_not_unique@, z.skip_not_unique@)) by {
        reveal_strlit("the name is not unique; start it as <pid>.<name>");
        reveal_strlit("名字不唯一；请用 <pid>.<名字> 连接");
        reveal_with_fuel(tidy, 5);
        lemma_agree(e.skip_not_unique@, Seq::empty(), z.skip_not_unique@, Seq::empty());
    }
    assert(agree(e.not_entering@, z.not_entering@)) by {
        reveal_strlit("{0}; not entering: {1}");
        reveal_strlit("{0}；未进入：{1}");
        reveal_with_fuel(tidy, 3);
        lemma_agree(e.not_entering@, seq![0, 19], z.not_entering@, seq![0, 8]);
    }
    assert(agree(e.create_failed@, z.create_failed@)) by {
        reveal_strlit("create failed: {0}");
        reveal_strlit("创建失败：{0}");
        reveal_with_fuel(tidy, 3);
        lemma_agree(e.create_failed@, seq![15], z.create_failed@, seq![5]);
    }
    assert(agree(e.screen_refused@, z.screen_refused@)) by {
        reveal_strlit("screen refused to create '{0}' (exit {1}):\n  {2} ran in {3}\n  {4}");
        reveal_strlit("screen 拒绝创建 '{0}'（退出码 {1}）：\n  {2} 运行于 {3}\n  {4}");
        reveal_with_fuel(tidy, 6);
        lemma_agree(e.screen_refused@, seq![26, 37, 45, 56, 62], z.screen_refused@, seq![13, 22, 30, 38, 44]);
    }
    assert(agree(e.screen_no_diagnostic@, z.screen_no_diagnostic@)) by {
        reveal_strlit("screen produced no diagnostic output; check the name and directory");
        reveal_strlit("screen 未给出诊断输出；请检查名字与目录");
        reveal_with_fuel(tidy, 6);
        lemma_agree(e.screen_no_diagnostic@, Seq::empty(), z.screen_no_diagnostic@, Seq::empty());
    }
    assert(agree(e.act_detach@, z.act_detach@)) by {
        reveal_strlit("detach");
        reveal_strlit("断开");
        reveal_with_fuel(tidy, 2);
        lemma_agree(e.act_detach@, Seq::empty(), z.act_detach@, Seq::empty());
    }
    assert(agree(e.act_kill@, z.act_kill@)) by {
        reveal_strlit("kill");
        reveal_strlit("终止");
        reveal_with_fuel(tidy, 2);
        lemma_agree(e.act_kill@, Seq::empty(), z.act_kill@, Seq::empty());
    }
}

proof fn lemma_from_act_wipe()
    ensures
        ({
            let e = english_texts();
            let z = chinese_texts();
            &&& agree(e.act_wipe@, z.act_wipe@)
            &&& agree(e.act_cleanup@, z.act_cleanup@)
            &&& agree(e.consequence_detach@, z.consequence_detach@)
            &&& agree(e.consequence_kill@, z.consequence_kill@)
            &&& agree(e.consequence_wipe@, z.consequence_wipe@)
            &&& agree(e.consequence_cleanup@, z.consequence_cleanup@)
            &&& agree(e.verify_failed@, z.verify_failed@)
            &&& agree(e.verify_failed_action@, z.verify_failed_action@)
            &&& agree(e.session_gone@, z.session_gone@)
            &&& agree(e.unknown_state@, z.unknown_state@)
            &&& agree(e.not_connectable_share@, z.not_connectable_share@)
            &&& agree(e.dead_wipe_hint@, z.dead_wipe_hint@)
        }),
{
    reveal(english_texts);
    reveal(chinese_texts);
    let e = english_texts();
    let z = chinese_texts();
    assert(agree(e.act_wipe@, z.act_wipe@)) by {
        reveal_strlit("wipe");
        reveal_strlit("清理");
        reveal_with_fuel(tidy, 2);
        lemma_agree(e.act_wipe@, Seq::empty(), z.act_wipe@, Seq::empty());
    }
    assert(agree(e.act_cleanup@, z.act_cleanup@)) by {
        reveal_strlit("cleanup");
        reveal_strlit("清档");
        reveal_with_fuel(tidy, 2);
        lemma_agree(e.act_cleanup@, Seq::empty(), z.act_cleanup@, Seq::empty());
    }
    assert(agree(e.consequence_detach@, z.consequence_detach@)) by {
        reveal_strlit("detach the attached client (it keeps running)");
        reveal_strlit("断开已连接的客户端（会话继续运行）");
        reveal_with_fuel(tidy, 4);
        lemma_agree(e.consequence_detach@, Seq::empty(), z.consequence_detach@, Seq::empty());
    }
    assert(agree(e.consequence_kill@, z.consequence_kill@)) by {
        reveal_strlit("TERMINATE the session and all its windows");
        reveal_strlit("终止该会话及其全部窗口");
        reveal_with_fuel(tidy, 4);
        lemma_agree(e.consequence_kill@, Seq::empty(), z.consequence_kill@, Seq::empty());
    }
    assert(agree(e.consequence_wipe@, z.consequence_wipe@)) by {
        reveal_strlit("remove all dead session sockets");
        reveal_strlit("删除所有 dead 会话的 socket");
        reveal_with_fuel(tidy, 3);
        lemma_agree(e.consequence_wipe@, Seq::empty(), z.consequence_wipe@, Seq::empty());
    }
    assert(agree(e.consequence_cleanup@, z.consequence_cleanup@)) by {
        reveal_strlit("forget metadata of sessions that no longer exist");
        reveal_strlit("忘记已不存在会话的元数据");
        reveal_with_fuel(tidy, 5);
        lemma_agree(e.consequence_cleanup@, Seq::empty(), z.consequence_cleanup@, Seq::empty());
    }
    assert(agree(e.verify_failed@, z.verify_failed@)) by {
        reveal_strlit("cannot verify sessions before connecting: {0}");
        reveal_strlit("连接前无法校验会话状态：{0}");
        reveal_with_fuel(tidy, 4);
        lemma_agree(e.verify_failed@, seq![42], z.verify_failed@, seq![12]);
    }
    assert(agree(e.verify_failed_action@, z.verify_failed_action@)) by {
        reveal_strlit("cannot verify sessions before {0}: {1}");
        reveal_strlit("{0}前无法校验会话状态：{1}");
        reveal_with_fuel(tidy, 4);
        lemma_agree(e.verify_failed_action@, seq![30, 35], z.verify_failed_action@, seq![0, 13]);
    }
    assert(agree(e.session_gone@, z.session_gone@)) by {
        reveal_strlit("session '{0}' is gone; list refreshed");
        reveal_strlit("会话 '{0}' 已消失；列表已刷新");
        reveal_with_fuel(tidy, 4);
        lemma_agree(e.session_gone@, seq![9], z.session_gone@, seq![4]);
    }
    assert(agree(e.unknown_state@, z.unknown_state@)) by {
        reveal_strlit("'{0}' reports unknown state '{1}'; refusing to connect");
        reveal_strlit("'{0}' 状态未知（'{1}'）；拒绝连接");
        reveal_with_fuel(tidy, 5);
        lemma_agree(e.unknown_state@, seq![1, 29], z.unknown_state@, seq![1, 12]);
    }
    assert(agree(e.not_connectable_share@, z.not_connectable_share@)) by {
        reveal_strlit("'{0}' is not connectable; cannot share");
        reveal_strlit("'{0}' 不可连接；无法共享");
        reveal_with_fuel(tidy, 4);
        lemma_agree(e.not_connectable_share@, seq![1], z.not_connectable_share@, seq![1]);
    }
    assert(agree(e.dead_wipe_hint@, z.dead_wipe_hint@)) by {
        reveal_strlit("'{0}' is dead; wipe it before connecting");
        reveal_strlit("'{0}' 已死亡；请先清理再连接");
        reveal_with_fuel(tidy, 4);
        lemma_agree(e.dead_wipe_hint@, seq![1], z.dead_wipe_hint@, seq![1]);
    }
}

proof fn lemma_from_unreachable_hint()
    ensures
        ({
            let e = english_texts();
            let z = chinese_texts();
            &&& agree(e.unreachable_hint@, z.unreachable_hint@)
            &&& agree(e.multi_note@, z.multi_note@)
            &&& agree(e.not_attached@, z.not_attached@)
            &&& agree(e.no_dead_to_wipe@, z.no_dead_to_wipe@)
            &&& agree(e.dead_sessions_display@, z.dead_sessions_display@)
            &&& agree(e.no_dead_left@, z.no_dead_left@)
            &&& agree(e.gone_kill@, z.gone_kill@)
            &&& agree(e.kill_attached@, z.kill_attached@)
            &&& agree(e.gone_detach@, z.gone_detach@)
        }),
{
    reveal(english_texts);
    reveal(chinese_texts);
    let e = english_texts();
    let z = chinese_texts();
    assert(agree(e.unreachable_hint@, z.unreachable_hint@)) by {
        reveal_strlit("'{0}' is unreachable; check the socket dir");
        reveal_strlit("'{0}' 不可达；请检查 socket 目录");
        reveal_with_fuel(tidy, 4);
        lemma_agree(e.unreachable_hint@, seq![1], z.unreachable_hint@, seq![1]);
    }
    assert(agree(e.multi_note@, z.multi_note@)) by {
        reveal_strlit("already shared by several displays; joining may resize everyone's window");
        reveal_strlit("已有多个终端共享；加入可能改变所有人的窗口尺寸（resize）");
        reveal_with_fuel(tidy, 6);
        lemma_agree(e.multi_note@, Seq::empty(), z.multi_note@, Seq::empty());
    }
    assert(agree(e.not_attached@, z.not_attached@)) by {
        reveal_strlit("'{0}' is not attached; nothing to detach (use Enter to connect)");
        reveal_strlit("'{0}' 未被连接；无可断开（用 Enter 连接）");
        reveal_with_fuel(tidy, 5);
        lemma_agree(e.not_attached@, seq![1], z.not_attached@, seq![1]);
    }
    assert(agree(e.no_dead_to_wipe@, z.no_dead_to_wipe@)) by {
        reveal_strlit("no dead sessions; nothing to wipe");
        reveal_strlit("没有 dead 会话；无需清理");
        reveal_with_fuel(tidy, 4);
        lemma_agree(e.no_dead_to_wipe@, Seq::empty(), z.no_dead_to_wipe@, Seq::empty());
    }
    assert(agree(e.dead_sessions_display@, z.dead_sessions_display@)) by {
        reveal_strlit("dead sessions");
        reveal_strlit("dead 会话");
        reveal_with_fuel(tidy, 2);
        lemma_agree(e.dead_sessions_display@, Seq::empty(), z.dead_sessions_display@, Seq::empty());
    }
    assert(agree(e.no_dead_left@, z.no_dead_left@)) by {
        reveal_strlit("no dead sessions left; nothing to wipe");
        reveal_strlit("已无 dead 会话；无需清理");
        reveal_with_fuel(tidy, 4);
        lemma_agree(e.no_dead_left@, Seq::empty(), z.no_dead_left@, Seq::empty());
    }
    assert(agree(e.gone_kill@, z.gone_kill@)) by {
        reveal_strlit("'{0}' is gone; nothing to kill");
        reveal_strlit("'{0}' 已消失；无需终止");
        reveal_with_fuel(tidy, 3);
        lemma_agree(e.gone_kill@, seq![1], z.gone_kill@, seq![1]);
    }
    assert(agree(e.kill_attached@, z.kill_attached@)) by {
        reveal_strlit("'{0}' is attached; kill refused (detach it first)");
        reveal_strlit("'{0}' 正被连接；拒绝终止（请先断开）");
        reveal_with_fuel(tidy, 5);
        lemma_agree(e.kill_attached@, seq![1], z.kill_attached@, seq![1]);
    }
    assert(agree(e.gone_detach@, z.gone_detach@)) by {
        reveal_strlit("'{0}' is gone; nothing to detach");
        reveal_strlit("'{0}' 已消失；无可断开");
        reveal_with_fuel(tidy, 4);
        lemma_agree(e.gone_detach@, seq![1], z.gone_detach@, seq![1]);
    }
}

proof fn lemma_from_no_longer_attached()
    ensures
        ({
            let e = english_texts();
            let z = chinese_texts();
            &&& agree(e.no_longer_attached@, z.no_longer_attached@)
            &&& agree(e.wiped@, z.wiped@)
            &&& agree(e.action_done@, z.action_done@)
            &&& agree(e.action_failed@, z.action_failed@)
            &&& agree(e.action_failed_short@, z.action_failed_short@)
            &&& agree(e.nothing_to_do@, z.nothing_to_do@)
            &&& agree(e.attach_failed@, z.attach_failed@)
            &&& agree(e.attach_exit_code@, z.attach_exit_code@)
            &&& agree(e.detached_from@, z.detached_from@)
            &&& agree(e.screen_exit_code@, z.screen_exit_code@)
            &&& agree(e.renamed_to@, z.renamed_to@)
            &&& agree(e.rename_failed@, z.rename_failed@)
        }),
{
    reveal(english_texts);
    reveal(chinese_texts);
    let e = english_texts();
    let z = chinese_texts();
    assert(agree(e.no_longer_attached@, z.no_longer_attached@)) by {
        reveal_strlit("'{0}' is no longer attached (now {1}); nothing to detach");
        reveal_strlit("'{0}' 已不再被连接（现为 {1}）；无可断开");
        reveal_with_fuel(tidy, 5);
        lemma_agree(e.no_longer_attached@, seq![1, 33], z.no_longer_attached@, seq![1, 16]);
    }
    assert(agree(e.wiped@, z.wiped@)) by {
        reveal_strlit("dead sessions wiped");
        reveal_strlit("dead 会话已清理");
        reveal_with_fuel(tidy, 3);
        lemma_agree(e.wiped@, Seq::empty(), z.wiped@, Seq::empty());
    }
    assert(agree(e.action_done@, z.action_done@)) by {
        reveal_strlit("'{0}' {1} done");
        reveal_strlit("'{0}' {1}完成");
        reveal_with_fuel(tidy, 2);
        lemma_agree(e.action_done@, seq![1, 6], z.action_done@, seq![1, 6]);
    }
    assert(agree(e.action_failed@, z.action_failed@)) by {
        reveal_strlit("{0} '{1}' failed (exit {2}){3}");
        reveal_strlit("{0} '{1}' 失败（退出码 {2}）{3}");
        reveal_with_fuel(tidy, 3);
        lemma_agree(e.action_failed@, seq![0, 5, 23, 27], z.action_failed@, seq![0, 5, 17, 21]);
    }
    assert(agree(e.action_failed_short@, z.action_failed_short@)) by {
        reveal_strlit("{0} failed: {1}");
        reveal_strlit("{0}失败：{1}");
        reveal_with_fuel(tidy, 2);
        lemma_agree(e.action_failed_short@, seq![0, 12], z.action_failed_short@, seq![0, 6]);
    }
    assert(agree(e.nothing_to_do@, z.nothing_to_do@)) by {
        reveal_strlit("nothing to do");
        reveal_strlit("无可执行操作");
        reveal_with_fuel(tidy, 2);
        lemma_agree(e.nothing_to_do@, Seq::empty(), z.nothing_to_do@, Seq::empty());
    }
    assert(agree(e.attach_failed@, z.attach_failed@)) by {
        reveal_strlit("attach failed: {0}");
        reveal_strlit("连接失败：{0}");
        reveal_with_fuel(tidy, 3);
        lemma_agree(e.attach_failed@, seq![15], z.attach_failed@, seq![5]);
    }
    assert(agree(e.attach_exit_code@, z.attach_exit_code@)) by {
        reveal_strlit("attach failed: screen exited with code {0}");
        reveal_strlit("连接失败：screen 退出码 {0}");
        reveal_with_fuel(tidy, 4);
        lemma_agree(e.attach_exit_code@, seq![39], z.attach_exit_code@, seq![16]);
    }
    assert(agree(e.detached_from@, z.detached_from@)) by {
        reveal_strlit("detached from '{0}'");
        reveal_strlit("已从 '{0}' 断开（detached）");
        reveal_with_fuel(tidy, 3);
        lemma_agree(e.detached_from@, seq![15], z.detached_from@, seq![4]);
    }
    assert(agree(e.screen_exit_code@, z.screen_exit_code@)) by {
        reveal_strlit("screen exited with code {0} ({1})");
        reveal_strlit("screen 退出码 {0}（{1}）");
        reveal_with_fuel(tidy, 4);
        lemma_agree(e.screen_exit_code@, seq![24, 29], z.screen_exit_code@, seq![11, 15]);
    }
    assert(agree(e.renamed_to@, z.renamed_to@)) by {
        reveal_strlit("session renamed to '{0}'");
        reveal_strlit("会话已重命名为 '{0}'");
        reveal_with_fuel(tidy, 3);
        lemma_agree(e.renamed_to@, seq![20], z.renamed_to@, seq![9]);
    }
    assert(agree(e.rename_failed@, z.rename_failed@)) by {
        reveal_strlit("rename failed (exit {0}): {1}");
        reveal_strlit("重命名失败（退出码 {0}）：{1}");
        reveal_with_fuel(tidy, 3);
        lemma_agree(e.rename_failed@, seq![20, 26], z.rename_failed@, seq![10, 15]);
    }
}

proof fn lemma_from_rename_failed_short()
    ensures
        ({
            let e = english_texts();
            let z = chinese_texts();
            &&& agree(e.rename_failed_short@, z.rename_failed_short@)
            &&& agree(e.meta_alias@, z.meta_alias@)
            &&& agree(e.meta_note@, z.meta_note@)
            &&& agree(e.meta_updated@, z.meta_updated@)
            &&& agree(e.meta_kept_ro@, z.meta_kept_ro@)
            &&& agree(e.no_stale_metadata@, z.no_stale_metadata@)
            &&& agree(e.stale_entries@, z.stale_entries@)
            &&& agree(e.removed_stale@, z.removed_stale@)
            &&& agree(e.removed_stale_ro@, z.removed_stale_ro@)
            &&& agree(e.restart_still_running@, z.restart_still_running@)
            &&& agree(e.restart_not_managed@, z.restart_not_managed@)
        }),
{
    reveal(english_texts);
    reveal(chinese_texts);
    let e = english_texts();
    let z = chinese_texts();
    assert(agree(e.rename_failed_short@, z.rename_failed_short@)) by {
        reveal_strlit("rename failed: {0}");
        reveal_strlit("重命名失败：{0}");
        reveal_with_fuel(tidy, 3);
        lemma_agree(e.rename_failed_short@, seq![15], z.rename_failed_short@, seq![6]);
    }
    assert(agree(e.meta_alias@, z.meta_alias@)) by {
        reveal_strlit("alias");
        reveal_strlit("别名");
        reveal_with_fuel(tidy, 2);
        lemma_agree(e.meta_alias@, Seq::empty(), z.meta_alias@, Seq::empty());
    }
    assert(agree(e.meta_note@, z.meta_note@)) by {
        reveal_strlit("note");
        reveal_strlit("备注");
        reveal_with_fuel(tidy, 2);
        lemma_agree(e.meta_note@, Seq::empty(), z.meta_note@, Seq::empty());
    }
    assert(agree(e.meta_updated@, z.meta_updated@)) by {
        reveal_strlit("'{0}' {1} updated");
        reveal_strlit("'{0}' 的{1}已更新");
        reveal_with_fuel(tidy, 3);
        lemma_agree(e.meta_updated@, seq![1, 6], z.meta_updated@, seq![1, 7]);
    }
    assert(agree(e.meta_kept_ro@, z.meta_kept_ro@)) by {
        reveal_strlit("'{0}' {1} kept for this session only (no config file written)");
        reveal_strlit("'{0}' 的{1}仅本会话生效（未写配置文件）");
        reveal_with_fuel(tidy, 5);
        lemma_agree(e.meta_kept_ro@, seq![1, 6], z.meta_kept_ro@, seq![1, 7]);
    }
    assert(agree(e.no_stale_metadata@, z.no_stale_metadata@)) by {
        reveal_strlit("no stale session metadata to clean");
        reveal_strlit("没有可清理的过期元数据");
        reveal_with_fuel(tidy, 4);
        lemma_agree(e.no_stale_metadata@, Seq::empty(), z.no_stale_metadata@, Seq::empty());
    }
    assert(agree(e.stale_entries@, z.stale_entries@)) by {
        reveal_strlit("{0} stale metadata entrie(s)");
        reveal_strlit("{0} 条过期元数据");
        reveal_with_fuel(tidy, 3);
        lemma_agree(e.stale_entries@, seq![0], z.stale_entries@, seq![0]);
    }
    assert(agree(e.removed_stale@, z.removed_stale@)) by {
        reveal_strlit("removed {0} stale metadata entrie(s)");
        reveal_strlit("已删除 {0} 条过期元数据");
        reveal_with_fuel(tidy, 4);
        lemma_agree(e.removed_stale@, seq![8], z.removed_stale@, seq![4]);
    }
    assert(agree(e.removed_stale_ro@, z.removed_stale_ro@)) by {
        reveal_strlit("removed {0} stale metadata entrie(s) for this session only (no config file written)");
        reveal_strlit("已删除 {0} 条过期元数据（仅本会话生效，未写配置文件）");
        reveal_with_fuel(tidy, 7);
        lemma_agree(e.removed_stale_ro@, seq![8], z.removed_stale_ro@, seq![4]);
    }
    assert(agree(e.restart_still_running@, z.restart_still_running@)) by {
        reveal_strlit("'{0}' is still running; restart applies to dead sessions");
        reveal_strlit("'{0}' 仍在运行；重启只适用于 dead 会话");
        reveal_with_fuel(tidy, 5);
        lemma_agree(e.restart_still_running@, seq![1], z.restart_still_running@, seq![1]);
    }
    assert(agree(e.restart_not_managed@, z.restart_not_managed@)) by {
        reveal_strlit("'{0}' was not created by stui; restart is unavailable");
        reveal_strlit("'{0}' 非 stui 创建；不可重启");
        reveal_with_fuel(tidy, 5);
        lemma_agree(e.restart_not_managed@, seq![1], z.restart_not_managed@, seq![1]);
    }
}

proof fn lemma_from_restart_unmanaged()
    ensures
        ({
            let e = english_texts();
            let z = chinese_texts();
            &&& agree(e.restart_unmanaged@, z.restart_unmanaged@)
            &&& agree(e.restart_no_record@, z.restart_no_record@)
            &&& agree(e.restarted@, z.restarted@)
            &&& agree(e.restart_failed@, z.restart_failed@)
            &&& agree(e.restart_failed_short@, z.restart_failed_short@)
            &&& agree(e.preview_not_running@, z.preview_not_running@)
            &&& agree(e.preview_unavailable@, z.preview_unavailable@)
            &&& agree(e.detach_hint_some@, z.detach_hint_some@)
        }),
{
    reveal(english_texts);
    reveal(chinese_texts);
    let e = english_texts();
    let z = chinese_texts();
    assert(agree(e.restart_unmanaged@, z.restart_unmanaged@)) by {
        reveal_strlit("'{0}' is unmanaged; restart is only available for sessions created by stui");
        reveal_strlit("'{0}' 非托管会话；重启仅适用于 stui 创建的会话");
        reveal_with_fuel(tidy, 6);
        lemma_agree(e.restart_unmanaged@, seq![1], z.restart_unmanaged@, seq![1]);
    }
    assert(agree(e.restart_no_record@, z.restart_no_record@)) by {
        reveal_strlit("'{0}' has no recorded command/cwd; cannot restart");
        reveal_strlit("'{0}' 没有记录命令/目录；无法重启");
        reveal_with_fuel(tidy, 5);
        lemma_agree(e.restart_no_record@, seq![1], z.restart_no_record@, seq![1]);
    }
    assert(agree(e.restarted@, z.restarted@)) by {
        reveal_strlit("restarted '{0}' with its recorded command");
        reveal_strlit("已用记录的命令重启 '{0}'");
        reveal_with_fuel(tidy, 4);
        lemma_agree(e.restarted@, seq![11], z.restarted@, seq![11]);
    }
    assert(agree(e.restart_failed@, z.restart_failed@)) by {
        reveal_strlit("restart of '{0}' failed (exit {1}): {2}");
        reveal_strlit("'{0}' 重启失败（退出码 {1}）：{2}");
        reveal_with_fuel(tidy, 4);
        lemma_agree(e.restart_failed@, seq![12, 30, 36], z.restart_failed@, seq![1, 15, 20]);
    }
    assert(agree(e.restart_failed_short@, z.restart_failed_short@)) by {
        reveal_strlit("restart failed: {0}");
        reveal_strlit("重启失败：{0}");
        reveal_with_fuel(tidy, 3);
        lemma_agree(e.restart_failed_short@, seq![16], z.restart_failed_short@, seq![5]);
    }
    assert(agree(e.preview_not_running@, z.preview_not_running@)) by {
        reveal_strlit("'{0}' is not running; there is nothing to preview");
        reveal_strlit("'{0}' 未在运行；没有可预览的内容");
        reveal_with_fuel(tidy, 5);
        lemma_agree(e.preview_not_running@, seq![1], z.preview_not_running@, seq![1]);
    }
    assert(agree(e.preview_unavailable@, z.preview_unavailable@)) by {
        reveal_strlit("preview unavailable: hardcopy support is {0} on this screen build (run `stui doctor` for details)");
        reveal_strlit("预览不可用：此 screen 版本的 hardcopy 支持为 {0}（详情运行 `stui doctor`）");
        reveal_with_fuel(tidy, 8);
        lemma_agree(e.preview_unavailable@, seq![41], z.preview_unavailable@, seq![32]);
    }
    assert(agree(e.detach_hint_some@, z.detach_hint_some@)) by {
        reveal_strlit("Tip: detach with {0} d");
        reveal_strlit("提示：按 {0} d 断开");
        reveal_with_fuel(tidy, 3);
        lemma_agree(e.detach_hint_some@, seq![17], z.detach_hint_some@, seq![5]);
    }
}

proof fn lemma_from_detach_hint_default()
    ensures
        ({
            let e = english_texts();
            let z = chinese_texts();
            &&& agree(e.detach_hint_default@, z.detach_hint_default@)
            &&& agree(e.refresh_failed@, z.refresh_failed@)
            &&& agree(e.header_self@, z.header_self@)
            &&& agree(e.inside_sty@, z.inside_sty@)
            &&& agree(e.attach_self@, z.attach_self@)
            &&& agree(e.desc_self_marker@, z.desc_self_marker@)
            &&& agree(e.list_empty@, z.list_empty@)
            &&& agree(e.list_filter_empty@, z.list_filter_empty@)
        }),
{
    reveal(english_texts);
    reveal(chinese_texts);
    let e = english_texts();
    let z = chinese_texts();
    assert(agree(e.detach_hint_default@, z.detach_hint_default@)) by {
        reveal_strlit("Tip: detach with Ctrl-A D (default prefix - use your own prefix + d if you changed it)");
        reveal_strlit("提示：按 Ctrl-A D 断开（默认前缀 —— 若你改过前缀，请用你的前缀 + d）");
        reveal_with_fuel(tidy, 7);
        lemma_agree(e.detach_hint_default@, Seq::empty(), z.detach_hint_default@, Seq::empty());
    }
    assert(agree(e.refresh_failed@, z.refresh_failed@)) by {
        reveal_strlit("refresh failed: {0}");
        reveal_strlit("刷新失败：{0}");
        reveal_with_fuel(tidy, 3);
        lemma_agree(e.refresh_failed@, seq![16], z.refresh_failed@, seq![5]);
    }
    assert(agree(e.header_self@, z.header_self@)) by {
        reveal_strlit("  ·  ● in screen: {0}");
        reveal_strlit("  ·  ● 当前在 screen: {0}");
        reveal_with_fuel(tidy, 3);
        lemma_agree(e.header_self@, seq![18], z.header_self@, seq![19]);
    }
    assert(agree(e.inside_sty@, z.inside_sty@)) by {
        reveal_strlit("running inside a screen session; attaching nests screen in screen");
        reveal_strlit("正运行在 screen 会话内；连接会造成嵌套");
        reveal_with_fuel(tidy, 6);
        lemma_agree(e.inside_sty@, Seq::empty(), z.inside_sty@, Seq::empty());
    }
    assert(agree(e.attach_self@, z.attach_self@)) by {
        reveal_strlit("you are inside '{0}'; screen refuses to attach from within itself");
        reveal_strlit("你正在 '{0}' 会话内；screen 拒绝从自身内部连接");
        reveal_with_fuel(tidy, 6);
        lemma_agree(e.attach_self@, seq![16], z.attach_self@, seq![5]);
    }
    assert(agree(e.desc_self_marker@, z.desc_self_marker@)) by {
        reveal_strlit("the session you are currently inside");
        reveal_strlit("标记你所在的会话");
        reveal_with_fuel(tidy, 4);
        lemma_agree(e.desc_self_marker@, Seq::empty(), z.desc_self_marker@, Seq::empty());
    }
    assert(agree(e.list_empty@, z.list_empty@)) by {
        reveal_strlit("No screen sessions. Press n to create one.");
        reveal_strlit("没有 screen 会话。按 n 新建。");
        reveal_with_fuel(tidy, 4);
        lemma_agree(e.list_empty@, Seq::empty(), z.list_empty@, Seq::empty());
    }
    assert(agree(e.list_filter_empty@, z.list_filter_empty@)) by {
        reveal_strlit("No sessions match '/{0}'. Esc clears the filter.");
        reveal_strlit("没有会话匹配 '/{0}'。按 Esc 清除过滤。");
        reveal_with_fuel(tidy, 5);
        lemma_agree(e.list_filter_empty@, seq![20], z.list_filter_empty@, seq![9]);
    }
}

proof fn lemma_from_header_sessions()
    ensures
        ({
            let e = english_texts();
            let z = chinese_texts();
            &&& agree(e.header_sessions@, z.header_sessions@)
            &&& agree(e.header_dead@, z.header_dead@)
            &&& agree(e.footer_wide_1@, z.footer_wide_1@)
            &&& agree(e.footer_wide_2@, z.footer_wide_2@)
            &&& agree(e.footer_wipe_dead@, z.footer_wipe_dead@)
            &&& agree(e.footer_mid@, z.footer_mid@)
            &&& agree(e.footer_wipe@, z.footer_wipe@)
            &&& agree(e.footer_tiny@, z.footer_tiny@)
            &&& agree(e.footer_refresh@, z.footer_refresh@)
            &&& agree(e.footer_manual@, z.footer_manual@)
            &&& agree(e.error_title@, z.error_title@)
        }),
{
    reveal(english_texts);
    reveal(chinese_texts);
    let e = english_texts();
    let z = chinese_texts();
    assert(agree(e.header_sessions@, z.header_sessions@)) by {
        reveal_strlit("  {0} session(s) · {1} attached");
        reveal_strlit("  {0} 个会话 · {1} 个已连接");
        reveal_with_fuel(tidy, 3);
        lemma_agree(e.header_sessions@, seq![2, 19], z.header_sessions@, seq![2, 12]);
    }
    assert(agree(e.header_dead@, z.header_dead@)) by {
        reveal_strlit(" · {0} dead");
        reveal_strlit(" · {0} 个 dead");
        reveal_with_fuel(tidy, 2);
        lemma_agree(e.header_dead@, seq![3], z.header_dead@, seq![3]);
    }
    assert(agree(e.footer_wide_1@, z.footer_wide_1@)) by {
        reveal_strlit(" j/k move  Enter attach  1-9 quick  n new  x share  i detail  R refresh");
        reveal_strlit(" j/k 移动  Enter 连接  1-9 快选  n 新建  x 共享  i 详情  R 刷新");
        reveal_with_fuel(tidy, 6);
        lemma_agree(e.footer_wide_1@, Seq::empty(), z.footer_wide_1@, Seq::empty());
    }
    assert(agree(e.footer_wide_2@, z.footer_wide_2@)) by {
        reveal_strlit(" / filter  D detach  K kill  r rename  W wipe(dead)  s restart  X cleanup  ? help  q quit");
        reveal_strlit(" / 过滤  D 断开  K 终止  r 重命名  W 清理(dead)  s 重启  X 清档  ? 帮助  q 退出");
        reveal_with_fuel(tidy, 7);
        lemma_agree(e.footer_wide_2@, Seq::empty(), z.footer_wide_2@, Seq::empty());
    }
    assert(agree(e.footer_wipe_dead@, z.footer_wipe_dead@)) by {
        reveal_strlit("  W wipe dead");
        reveal_strlit("  W 清理 dead");
        reveal_with_fuel(tidy, 2);
        lemma_agree(e.footer_wipe_dead@, Seq::empty(), z.footer_wipe_dead@, Seq::empty());
    }
    assert(agree(e.footer_mid@, z.footer_mid@)) by {
        reveal_strlit(" n new  1-9 attach  i detail  / find  K kill  ? help  q quit");
        reveal_strlit(" n 新建  1-9 连接  i 详情  / 查找  K 终止  ? 帮助  q 退出");
        reveal_with_fuel(tidy, 5);
        lemma_agree(e.footer_mid@, Seq::empty(), z.footer_mid@, Seq::empty());
    }
    assert(agree(e.footer_wipe@, z.footer_wipe@)) by {
        reveal_strlit("  W wipe");
        reveal_strlit("  W 清理");
        reveal_with_fuel(tidy, 2);
        lemma_agree(e.footer_wipe@, Seq::empty(), z.footer_wipe@, Seq::empty());
    }
    assert(agree(e.footer_tiny@, z.footer_tiny@)) by {
        reveal_strlit(" ? help  q quit");
        reveal_strlit(" ? 帮助  q 退出");
        reveal_with_fuel(tidy, 2);
        lemma_agree(e.footer_tiny@, Seq::empty(), z.footer_tiny@, Seq::empty());
    }
    assert(agree(e.footer_refresh@, z.footer_refresh@)) by {
        reveal_strlit(" refresh every {0}s");
        reveal_strlit(" 每 {0}s 刷新");
        reveal_with_fuel(tidy, 3);
        lemma_agree(e.footer_refresh@, seq![15], z.footer_refresh@, seq![3]);
    }
    assert(agree(e.footer_manual@, z.footer_manual@)) by {
        reveal_strlit(" manual refresh (R)");
        reveal_strlit(" 手动刷新（R）");
        reveal_with_fuel(tidy, 3);
        lemma_agree(e.footer_manual@, Seq::empty(), z.footer_manual@, Seq::empty());
    }
    assert(agree(e.error_title@, z.error_title@)) by {
        reveal_strlit(" Error ");
        reveal_strlit(" 错误 ");
        reveal_with_fuel(tidy, 2);
        lemma_agree(e.error_title@, Seq::empty(), z.error_title@, Seq::empty());
    }
}

proof fn lemma_from_error_hint()
    ensures
        ({
            let e = english_texts();
            let z = chinese_texts();
            &&& agree(e.error_hint@, z.error_hint@)
            &&& agree(e.help_title@, z.help_title@)
            &&& agree(e.desc_move@, z.desc_move@)
            &&& agree(e.desc_attach@, z.desc_attach@)
            &&& agree(e.desc_quick@, z.desc_quick@)
            &&& agree(e.desc_share@, z.desc_share@)
            &&& agree(e.desc_preview@, z.desc_preview@)
            &&& agree(e.desc_new@, z.desc_new@)
            &&& agree(e.desc_detail@, z.desc_detail@)
            &&& agree(e.desc_filter@, z.desc_filter@)
            &&& agree(e.desc_detach@, z.desc_detach@)
            &&& agree(e.desc_kill@, z.desc_kill@)
        }),
{
    reveal(english_texts);
    reveal(chinese_texts);
    let e = english_texts();
    let z = chinese_texts();
    assert(agree(e.error_hint@, z.error_hint@)) by {
        reveal_strlit("Enter / Esc close");
        reveal_strlit("Enter / Esc 关闭");
        reveal_with_fuel(tidy, 3);
        lemma_agree(e.error_hint@, Seq::empty(), z.error_hint@, Seq::empty());
    }
    assert(agree(e.help_title@, z.help_title@)) by {
        reveal_strlit(" Help ");
        reveal_strlit(" 帮助 ");
        reveal_with_fuel(tidy, 2);
        lemma_agree(e.help_title@, Seq::empty(), z.help_title@, Seq::empty());
    }
    assert(agree(e.desc_move@, z.desc_move@)) by {
        reveal_strlit(" move selection");
        reveal_strlit(" 移动选择");
        reveal_with_fuel(tidy, 2);
        lemma_agree(e.desc_move@, Seq::empty(), z.desc_move@, Seq::empty());
    }
    assert(agree(e.desc_attach@, z.desc_attach@)) by {
        reveal_strlit("     enter session (stui is replaced by screen)");
        reveal_strlit("     进入会话（stui 被 screen 替换，退出后回原 shell）");
        reveal_with_fuel(tidy, 4);
        lemma_agree(e.desc_attach@, Seq::empty(), z.desc_attach@, Seq::empty());
    }
    assert(agree(e.desc_quick@, z.desc_quick@)) by {
        reveal_strlit("        quick attach by row");
        reveal_strlit("        按行号快速连接");
        reveal_with_fuel(tidy, 3);
        lemma_agree(e.desc_quick@, Seq::empty(), z.desc_quick@, Seq::empty());
    }
    assert(agree(e.desc_share@, z.desc_share@)) by {
        reveal_strlit("        share attach (-x)");
        reveal_strlit("        共享连接（-x）");
        reveal_with_fuel(tidy, 3);
        lemma_agree(e.desc_share@, Seq::empty(), z.desc_share@, Seq::empty());
    }
    assert(agree(e.desc_preview@, z.desc_preview@)) by {
        reveal_strlit("        preview snapshot");
        reveal_strlit("        预览快照");
        reveal_with_fuel(tidy, 3);
        lemma_agree(e.desc_preview@, Seq::empty(), z.desc_preview@, Seq::empty());
    }
    assert(agree(e.desc_new@, z.desc_new@)) by {
        reveal_strlit("        new session");
        reveal_strlit("        新建会话");
        reveal_with_fuel(tidy, 3);
        lemma_agree(e.desc_new@, Seq::empty(), z.desc_new@, Seq::empty());
    }
    assert(agree(e.desc_detail@, z.desc_detail@)) by {
        reveal_strlit("        detail of selection");
        reveal_strlit("        选中会话详情");
        reveal_with_fuel(tidy, 3);
        lemma_agree(e.desc_detail@, Seq::empty(), z.desc_detail@, Seq::empty());
    }
    assert(agree(e.desc_filter@, z.desc_filter@)) by {
        reveal_strlit("        filter sessions");
        reveal_strlit("        过滤会话");
        reveal_with_fuel(tidy, 3);
        lemma_agree(e.desc_filter@, Seq::empty(), z.desc_filter@, Seq::empty());
    }
    assert(agree(e.desc_detach@, z.desc_detach@)) by {
        reveal_strlit("        remote detach");
        reveal_strlit("        远程断开");
        reveal_with_fuel(tidy, 3);
        lemma_agree(e.desc_detach@, Seq::empty(), z.desc_detach@, Seq::empty());
    }
    assert(agree(e.desc_kill@, z.desc_kill@)) by {
        reveal_strlit("        kill (confirm)");
        reveal_strlit("        终止（需确认）");
        reveal_with_fuel(tidy, 3);
        lemma_agree(e.desc_kill@, Seq::empty(), z.desc_kill@, Seq::empty());
    }
}

proof fn lemma_from_desc_rename()
    ensures
        ({
            let e = english_texts();
            let z = chinese_texts();
            &&& agree(e.desc_rename@, z.desc_rename@)
            &&& agree(e.desc_wipe@, z.desc_wipe@)
            &&& agree(e.desc_refresh@, z.desc_refresh@)
            &&& agree(e.desc_quit@, z.desc_quit@)
            &&& agree(e.version_unknown@, z.version_unknown@)
            &&& agree(e.detail_title@, z.detail_title@)
            &&& agree(e.detail_nothing@, z.detail_nothing@)
            &&& agree(e.detail_hint@, z.detail_hint@)
            &&& agree(e.dl_name@, z.dl_name@)
            &&& agree(e.dl_address@, z.dl_address@)
            &&& agree(e.dl_pid@, z.dl_pid@)
            &&& agree(e.dl_status@, z.dl_status@)
        }),
{
    reveal(english_texts);
    reveal(chinese_texts);
    let e = english_texts();
    let z = chinese_texts();
    assert(agree(e.desc_rename@, z.desc_rename@)) by {
        reveal_strlit("        rename");
        reveal_strlit("        重命名");
        reveal_with_fuel(tidy, 2);
        lemma_agree(e.desc_rename@, Seq::empty(), z.desc_rename@, Seq::empty());
    }
    assert(agree(e.desc_wipe@, z.desc_wipe@)) by {
        reveal_strlit("        wipe dead (confirm)");
        reveal_strlit("        清理 dead（需确认）");
        reveal_with_fuel(tidy, 3);
        lemma_agree(e.desc_wipe@, Seq::empty(), z.desc_wipe@, Seq::empty());
    }
    assert(agree(e.desc_refresh@, z.desc_refresh@)) by {
        reveal_strlit("        refresh now");
        reveal_strlit("        立即刷新");
        reveal_with_fuel(tidy, 3);
        lemma_agree(e.desc_refresh@, Seq::empty(), z.desc_refresh@, Seq::empty());
    }
    assert(agree(e.desc_quit@, z.desc_quit@)) by {
        reveal_strlit("  quit / close");
        reveal_strlit("  退出 / 关闭");
        reveal_with_fuel(tidy, 2);
        lemma_agree(e.desc_quit@, Seq::empty(), z.desc_quit@, Seq::empty());
    }
    assert(agree(e.version_unknown@, z.version_unknown@)) by {
        reveal_strlit("version unknown");
        reveal_strlit("版本未知");
        reveal_with_fuel(tidy, 2);
        lemma_agree(e.version_unknown@, Seq::empty(), z.version_unknown@, Seq::empty());
    }
    assert(agree(e.detail_title@, z.detail_title@)) by {
        reveal_strlit(" Detail ");
        reveal_strlit(" 详情 ");
        reveal_with_fuel(tidy, 2);
        lemma_agree(e.detail_title@, Seq::empty(), z.detail_title@, Seq::empty());
    }
    assert(agree(e.detail_nothing@, z.detail_nothing@)) by {
        reveal_strlit(" nothing selected");
        reveal_strlit(" 未选中会话");
        reveal_with_fuel(tidy, 3);
        lemma_agree(e.detail_nothing@, Seq::empty(), z.detail_nothing@, Seq::empty());
    }
    assert(agree(e.detail_hint@, z.detail_hint@)) by {
        reveal_strlit(" a alias · t note · Esc close");
        reveal_strlit(" a 别名 · t 备注 · Esc 关闭");
        reveal_with_fuel(tidy, 3);
        lemma_agree(e.detail_hint@, Seq::empty(), z.detail_hint@, Seq::empty());
    }
    assert(agree(e.dl_name@, z.dl_name@)) by {
        reveal_strlit("name");
        reveal_strlit("名字");
        reveal_with_fuel(tidy, 2);
        lemma_agree(e.dl_name@, Seq::empty(), z.dl_name@, Seq::empty());
    }
    assert(agree(e.dl_address@, z.dl_address@)) by {
        reveal_strlit("address");
        reveal_strlit("地址");
        reveal_with_fuel(tidy, 2);
        lemma_agree(e.dl_address@, Seq::empty(), z.dl_address@, Seq::empty());
    }
    assert(agree(e.dl_pid@, z.dl_pid@)) by {
        reveal_strlit("pid");
        reveal_strlit("PID");
        reveal_with_fuel(tidy, 2);
        lemma_agree(e.dl_pid@, Seq::empty(), z.dl_pid@, Seq::empty());
    }
    assert(agree(e.dl_status@, z.dl_status@)) by {
        reveal_strlit("status");
        reveal_strlit("状态");
        reveal_with_fuel(tidy, 2);
        lemma_agree(e.dl_status@, Seq::empty(), z.dl_status@, Seq::empty());
    }
}

proof fn lemma_from_dl_created()
    ensures
        ({
            let e = english_texts();
            let z = chinese_texts();
            &&& agree(e.dl_created@, z.dl_created@)
            &&& agree(e.dl_windows@, z.dl_windows@)
            &&& agree(e.dl_cwd@, z.dl_cwd@)
            &&& agree(e.dl_command@, z.dl_command@)
            &&& agree(e.dl_alias@, z.dl_alias@)
            &&& agree(e.dl_note@, z.dl_note@)
            &&& agree(e.dl_managed@, z.dl_managed@)
            &&& agree(e.dl_managed_yes@, z.dl_managed_yes@)
            &&& agree(e.meta_title@, z.meta_title@)
            &&& agree(e.meta_line@, z.meta_line@)
            &&& agree(e.meta_hint@, z.meta_hint@)
            &&& agree(e.rename_title@, z.rename_title@)
        }),
{
    reveal(english_texts);
    reveal(chinese_texts);
    let e = english_texts();
    let z = chinese_texts();
    assert(agree(e.dl_created@, z.dl_created@)) by {
        reveal_strlit("created");
        reveal_strlit("创建时间");
        reveal_with_fuel(tidy, 2);
        lemma_agree(e.dl_created@, Seq::empty(), z.dl_created@, Seq::empty());
    }
    assert(agree(e.dl_windows@, z.dl_windows@)) by {
        reveal_strlit("windows");
        reveal_strlit("窗口");
        reveal_with_fuel(tidy, 2);
        lemma_agree(e.dl_windows@, Seq::empty(), z.dl_windows@, Seq::empty());
    }
    assert(agree(e.dl_cwd@, z.dl_cwd@)) by {
        reveal_strlit("cwd");
        reveal_strlit("目录");
        reveal_with_fuel(tidy, 2);
        lemma_agree(e.dl_cwd@, Seq::empty(), z.dl_cwd@, Seq::empty());
    }
    assert(agree(e.dl_command@, z.dl_command@)) by {
        reveal_strlit("command");
        reveal_strlit("命令");
        reveal_with_fuel(tidy, 2);
        lemma_agree(e.dl_command@, Seq::empty(), z.dl_command@, Seq::empty());
    }
    assert(agree(e.dl_alias@, z.dl_alias@)) by {
        reveal_strlit("alias");
        reveal_strlit("别名");
        reveal_with_fuel(tidy, 2);
        lemma_agree(e.dl_alias@, Seq::empty(), z.dl_alias@, Seq::empty());
    }
    assert(agree(e.dl_note@, z.dl_note@)) by {
        reveal_strlit("note");
        reveal_strlit("备注");
        reveal_with_fuel(tidy, 2);
        lemma_agree(e.dl_note@, Seq::empty(), z.dl_note@, Seq::empty());
    }
    assert(agree(e.dl_managed@, z.dl_managed@)) by {
        reveal_strlit("managed");
        reveal_strlit("托管");
        reveal_with_fuel(tidy, 2);
        lemma_agree(e.dl_managed@, Seq::empty(), z.dl_managed@, Seq::empty());
    }
    assert(agree(e.dl_managed_yes@, z.dl_managed_yes@)) by {
        reveal_strlit("yes (created by stui; restart with s)");
        reveal_strlit("是（stui 创建；按 s 重启）");
        reveal_with_fuel(tidy, 4);
        lemma_agree(e.dl_managed_yes@, Seq::empty(), z.dl_managed_yes@, Seq::empty());
    }
    assert(agree(e.meta_title@, z.meta_title@)) by {
        reveal_strlit(" Metadata ");
        reveal_strlit(" 元数据 ");
        reveal_with_fuel(tidy, 2);
        lemma_agree(e.meta_title@, Seq::empty(), z.meta_title@, Seq::empty());
    }
    assert(agree(e.meta_line@, z.meta_line@)) by {
        reveal_strlit(" {0} for '{1}':");
        reveal_strlit(" '{1}' 的{0}：");
        reveal_with_fuel(tidy, 2);
        lemma_agree(e.meta_line@, seq![1, 10], z.meta_line@, seq![8, 2]);
    }
    assert(agree(e.meta_hint@, z.meta_hint@)) by {
        reveal_strlit(" Enter save · empty clears · Esc cancel");
        reveal_strlit(" Enter 保存 · 留空清除 · Esc 取消");
        reveal_with_fuel(tidy, 4);
        lemma_agree(e.meta_hint@, Seq::empty(), z.meta_hint@, Seq::empty());
    }
    assert(agree(e.rename_title@, z.rename_title@)) by {
        reveal_strlit(" Rename ");
        reveal_strlit(" 重命名 ");
        reveal_with_fuel(tidy, 2);
        lemma_agree(e.rename_title@, Seq::empty(), z.rename_title@, Seq::empty());
    }
}

proof fn lemma_from_rename_new_name()
    ensures
        ({
            let e = english_texts();
            let z = chinese_texts();
            &&& agree(e.rename_new_name@, z.rename_new_name@)
            &&& agree(e.rename_hint@, z.rename_hint@)
            &&& agree(e.confirm_title@, z.confirm_title@)
            &&& agree(e.confirm_session@, z.confirm_session@)
            &&& agree(e.confirm_command@, z.confirm_command@)
            &&& agree(e.confirm_yes@, z.confirm_yes@)
            &&& agree(e.confirm_cancel@, z.confirm_cancel@)
            &&& agree(e.confirm_hint@, z.confirm_hint@)
            &&& agree(e.filter_title@, z.filter_title@)
            &&& agree(e.filter_match@, z.filter_match@)
            &&& agree(e.filter_hint@, z.filter_hint@)
            &&& agree(e.attach_title@, z.attach_title@)
        }),
{
    reveal(english_texts);
    reveal(chinese_texts);
    let e = english_texts();
    let z = chinese_texts();
    assert(agree(e.rename_new_name@, z.rename_new_name@)) by {
        reveal_strlit(" New name:");
        reveal_strlit(" 新名字：");
        reveal_with_fuel(tidy, 2);
        lemma_agree(e.rename_new_name@, Seq::empty(), z.rename_new_name@, Seq::empty());
    }
    assert(agree(e.rename_hint@, z.rename_hint@)) by {
        reveal_strlit(" Enter rename · Esc cancel");
        reveal_strlit(" Enter 重命名 · Esc 取消");
        reveal_with_fuel(tidy, 3);
        lemma_agree(e.rename_hint@, Seq::empty(), z.rename_hint@, Seq::empty());
    }
    assert(agree(e.confirm_title@, z.confirm_title@)) by {
        reveal_strlit(" Confirm: {0}");
        reveal_strlit(" 确认：{0}");
        reveal_with_fuel(tidy, 2);
        lemma_agree(e.confirm_title@, seq![10], z.confirm_title@, seq![4]);
    }
    assert(agree(e.confirm_session@, z.confirm_session@)) by {
        reveal_strlit(" session: {0}");
        reveal_strlit(" 会话：{0}");
        reveal_with_fuel(tidy, 2);
        lemma_agree(e.confirm_session@, seq![10], z.confirm_session@, seq![4]);
    }
    assert(agree(e.confirm_command@, z.confirm_command@)) by {
        reveal_strlit(" command: {0}");
        reveal_strlit(" 命令：{0}");
        reveal_with_fuel(tidy, 2);
        lemma_agree(e.confirm_command@, seq![10], z.confirm_command@, seq![4]);
    }
    assert(agree(e.confirm_yes@, z.confirm_yes@)) by {
        reveal_strlit(" [ Yes ] ");
        reveal_strlit(" [ 是 ] ");
        reveal_with_fuel(tidy, 2);
        lemma_agree(e.confirm_yes@, Seq::empty(), z.confirm_yes@, Seq::empty());
    }
    assert(agree(e.confirm_cancel@, z.confirm_cancel@)) by {
        reveal_strlit(" [ Cancel ] ");
        reveal_strlit(" [ 取消 ] ");
        reveal_with_fuel(tidy, 2);
        lemma_agree(e.confirm_cancel@, Seq::empty(), z.confirm_cancel@, Seq::empty());
    }
    assert(agree(e.confirm_hint@, z.confirm_hint@)) by {
        reveal_strlit(" ←/→ switch focus · Enter run focused · y confirm · Esc cancel");
        reveal_strlit(" ←/→ 切换焦点 · Enter 执行焦点项 · y 确认 · Esc 取消");
        reveal_with_fuel(tidy, 5);
        lemma_agree(e.confirm_hint@, Seq::empty(), z.confirm_hint@, Seq::empty());
    }
    assert(agree(e.filter_title@, z.filter_title@)) by {
        reveal_strlit(" Filter ");
        reveal_strlit(" 过滤 ");
        reveal_with_fuel(tidy, 2);
        lemma_agree(e.filter_title@, Seq::empty(), z.filter_title@, Seq::empty());
    }
    assert(agree(e.filter_match@, z.filter_match@)) by {
        reveal_strlit(" {0} of {1} sessions match");
        reveal_strlit(" {0}/{1} 个会话匹配");
        reveal_with_fuel(tidy, 3);
        lemma_agree(e.filter_match@, seq![1, 8], z.filter_match@, seq![1, 5]);
    }
    assert(agree(e.filter_hint@, z.filter_hint@)) by {
        reveal_strlit(" Enter apply · Esc clear filter");
        reveal_strlit(" Enter 应用 · Esc 清除过滤");
        reveal_with_fuel(tidy, 3);
        lemma_agree(e.filter_hint@, Seq::empty(), z.filter_hint@, Seq::empty());
    }
    assert(agree(e.attach_title@, z.attach_title@)) by {
        reveal_strlit(" Attach ");
        reveal_strlit(" 连接 ");
        reveal_with_fuel(tidy, 2);
        lemma_agree(e.attach_title@, Seq::empty(), z.attach_title@, Seq::empty());
    }
}

proof fn lemma_from_attach_line()
    ensures
        ({
            let e = english_texts();
            let z = chinese_texts();
            &&& agree(e.attach_line@, z.attach_line@)
            &&& agree(e.attach_share@, z.attach_share@)
            &&& agree(e.attach_takeover@, z.attach_takeover@)
            &&& agree(e.attach_hint@, z.attach_hint@)
            &&& agree(e.preview_pane_hint@, z.preview_pane_hint@)
            &&& agree(e.preview_title@, z.preview_title@)
            &&& agree(e.preview_overlay_title@, z.preview_overlay_title@)
            &&& agree(e.preview_fetched@, z.preview_fetched@)
            &&& agree(e.preview_empty@, z.preview_empty@)
            &&& agree(e.new_title@, z.new_title@)
            &&& agree(e.new_hint@, z.new_hint@)
            &&& agree(e.new_recent@, z.new_recent@)
        }),
{
    reveal(english_texts);
    reveal(chinese_texts);
    let e = english_texts();
    let z = chinese_texts();
    assert(agree(e.attach_line@, z.attach_line@)) by {
        reveal_strlit(" '{0}' is attached elsewhere:");
        reveal_strlit(" '{0}' 正被其他终端连接：");
        reveal_with_fuel(tidy, 3);
        lemma_agree(e.attach_line@, seq![2], z.attach_line@, seq![2]);
    }
    assert(agree(e.attach_share@, z.attach_share@)) by {
        reveal_strlit("share the session (-x)");
        reveal_strlit("共享连接（-x）");
        reveal_with_fuel(tidy, 3);
        lemma_agree(e.attach_share@, Seq::empty(), z.attach_share@, Seq::empty());
    }
    assert(agree(e.attach_takeover@, z.attach_takeover@)) by {
        reveal_strlit("detach the other and take over (-d -r)");
        reveal_strlit("断开对方并接管（-d -r）");
        reveal_with_fuel(tidy, 4);
        lemma_agree(e.attach_takeover@, Seq::empty(), z.attach_takeover@, Seq::empty());
    }
    assert(agree(e.attach_hint@, z.attach_hint@)) by {
        reveal_strlit(" 1 share · 2 take over · Esc cancel");
        reveal_strlit(" 1 共享 · 2 接管 · Esc 取消");
        reveal_with_fuel(tidy, 4);
        lemma_agree(e.attach_hint@, Seq::empty(), z.attach_hint@, Seq::empty());
    }
    assert(agree(e.preview_pane_hint@, z.preview_pane_hint@)) by {
        reveal_strlit(" press p to snapshot the selected session");
        reveal_strlit(" 按 p 抓取选中会话的快照");
        reveal_with_fuel(tidy, 4);
        lemma_agree(e.preview_pane_hint@, Seq::empty(), z.preview_pane_hint@, Seq::empty());
    }
    assert(agree(e.preview_title@, z.preview_title@)) by {
        reveal_strlit(" Preview ");
        reveal_strlit(" 预览 ");
        reveal_with_fuel(tidy, 2);
        lemma_agree(e.preview_title@, Seq::empty(), z.preview_title@, Seq::empty());
    }
    assert(agree(e.preview_overlay_title@, z.preview_overlay_title@)) by {
        reveal_strlit(" Preview - {0} · fetched {1} ");
        reveal_strlit(" 预览 - {0} · 抓取于 {1} ");
        reveal_with_fuel(tidy, 3);
        lemma_agree(e.preview_overlay_title@, seq![11, 25], z.preview_overlay_title@, seq![6, 16]);
    }
    assert(agree(e.preview_fetched@, z.preview_fetched@)) by {
        reveal_strlit(" fetched {0} · session {1}");
        reveal_strlit(" 抓取于 {0} · 会话 {1}");
        reveal_with_fuel(tidy, 3);
        lemma_agree(e.preview_fetched@, seq![9, 23], z.preview_fetched@, seq![5, 14]);
    }
    assert(agree(e.preview_empty@, z.preview_empty@)) by {
        reveal_strlit(" (empty window)");
        reveal_strlit(" （空窗口）");
        reveal_with_fuel(tidy, 2);
        lemma_agree(e.preview_empty@, Seq::empty(), z.preview_empty@, Seq::empty());
    }
    assert(agree(e.new_title@, z.new_title@)) by {
        reveal_strlit(" New session ");
        reveal_strlit(" 新建会话 ");
        reveal_with_fuel(tidy, 2);
        lemma_agree(e.new_title@, Seq::empty(), z.new_title@, Seq::empty());
    }
    assert(agree(e.new_hint@, z.new_hint@)) by {
        reveal_strlit(" Tab/↓ next · ↑ back · Enter create · Esc cancel");
        reveal_strlit(" Tab/↓ 下一项 · ↑ 上一项 · Enter 创建 · Esc 取消");
        reveal_with_fuel(tidy, 5);
        lemma_agree(e.new_hint@, Seq::empty(), z.new_hint@, Seq::empty());
    }
    assert(agree(e.new_recent@, z.new_recent@)) by {
        reveal_strlit(" Recent directories (1-9):");
        reveal_strlit(" 最近目录（1-9）：");
        reveal_with_fuel(tidy, 3);
        lemma_agree(e.new_recent@, Seq::empty(), z.new_recent@, Seq::empty());
    }
}

/// Every text is there in both languages, and asks for the same arguments in both: what
/// fills a template in one language fills it in the other.
pub open spec fn same_texts(e: Dict, z: Dict) -> bool {
    &&& agree(e.note_label@, z.note_label@)
    &&& agree(e.ls_no_sessions@, z.ls_no_sessions@)
    &&& agree(e.ls_summary@, z.ls_summary@)
    &&& agree(e.ls_col_idx@, z.ls_col_idx@)
    &&& agree(e.ls_col_name@, z.ls_col_name@)
    &&& agree(e.ls_col_status@, z.ls_col_status@)
    &&& agree(e.ls_col_pid@, z.ls_col_pid@)
    &&& agree(e.ls_col_created@, z.ls_col_created@)
    &&& agree(e.st_detached@, z.st_detached@)
    &&& agree(e.st_attached@, z.st_attached@)
    &&& agree(e.st_multi@, z.st_multi@)
    &&& agree(e.st_dead@, z.st_dead@)
    &&& agree(e.st_unreachable@, z.st_unreachable@)
    &&& agree(e.outlook_no_sessions@, z.outlook_no_sessions@)
    &&& agree(e.outlook_unconnectable@, z.outlook_unconnectable@)
    &&& agree(e.outlook_available@, z.outlook_available@)
    &&& agree(e.outlook_inconclusive@, z.outlook_inconclusive@)
    &&& agree(e.d_title@, z.d_title@)
    &&& agree(e.d_fix@, z.d_fix@)
    &&& agree(e.d_summary@, z.d_summary@)
    &&& agree(e.d_notes@, z.d_notes@)
    &&& agree(e.d_name_screen@, z.d_name_screen@)
    &&& agree(e.d_name_version@, z.d_name_version@)
    &&& agree(e.d_name_socket@, z.d_name_socket@)
    &&& agree(e.d_name_enum@, z.d_name_enum@)
    &&& agree(e.d_name_terminfo@, z.d_name_terminfo@)
    &&& agree(e.d_name_utf8@, z.d_name_utf8@)
    &&& agree(e.d_name_dead@, z.d_name_dead@)
    &&& agree(e.d_name_nesting@, z.d_name_nesting@)
    &&& agree(e.d_name_size@, z.d_name_size@)
    &&& agree(e.d_name_config@, z.d_name_config@)
    &&& agree(e.d_name_preview@, z.d_name_preview@)
    &&& agree(e.d_screen_missing_fix@, z.d_screen_missing_fix@)
    &&& agree(e.d_version_na@, z.d_version_na@)
    &&& agree(e.d_install_screen@, z.d_install_screen@)
    &&& agree(e.d_version_unparsed@, z.d_version_unparsed@)
    &&& agree(e.d_value_empty@, z.d_value_empty@)
    &&& agree(e.d_caps_live_fix@, z.d_caps_live_fix@)
    &&& agree(e.d_q_ok@, z.d_q_ok@)
    &&& agree(e.d_q_no@, z.d_q_no@)
    &&& agree(e.d_q_no_fix@, z.d_q_no_fix@)
    &&& agree(e.d_q_unknown@, z.d_q_unknown@)
    &&& agree(e.d_q_unknown_fix@, z.d_q_unknown_fix@)
    &&& agree(e.d_ls_failed@, z.d_ls_failed@)
    &&& agree(e.d_screendir_fix@, z.d_screendir_fix@)
    &&& agree(e.d_screendir_empty@, z.d_screendir_empty@)
    &&& agree(e.d_screendir_empty_fix@, z.d_screendir_empty_fix@)
    &&& agree(e.d_socket_ok@, z.d_socket_ok@)
    &&& agree(e.d_not_reported@, z.d_not_reported@)
    &&& agree(e.d_enum_cannot@, z.d_enum_cannot@)
    &&& agree(e.d_fix_screen_first@, z.d_fix_screen_first@)
    &&& agree(e.d_enum_exit10@, z.d_enum_exit10@)
    &&& agree(e.d_enum_perm_fix@, z.d_enum_perm_fix@)
    &&& agree(e.d_enum_exit9@, z.d_enum_exit9@)
    &&& agree(e.d_enum_mismatch@, z.d_enum_mismatch@)
    &&& agree(e.d_enum_code@, z.d_enum_code@)
    &&& agree(e.d_enum_code_fix@, z.d_enum_code_fix@)
    &&& agree(e.d_enum_ok@, z.d_enum_ok@)
    &&& agree(e.d_ti_present@, z.d_ti_present@)
    &&& agree(e.d_ti_failed@, z.d_ti_failed@)
    &&& agree(e.d_ti_fix@, z.d_ti_fix@)
    &&& agree(e.d_ti_missing@, z.d_ti_missing@)
    &&& agree(e.d_ti_missing_fix@, z.d_ti_missing_fix@)
    &&& agree(e.d_utf8_none@, z.d_utf8_none@)
    &&& agree(e.d_utf8_none_fix@, z.d_utf8_none_fix@)
    &&& agree(e.d_utf8_not@, z.d_utf8_not@)
    &&& agree(e.d_utf8_fix@, z.d_utf8_fix@)
    &&& agree(e.d_cannot_enum@, z.d_cannot_enum@)
    &&& agree(e.d_dead_none@, z.d_dead_none@)
    &&& agree(e.d_dead_unreachable@, z.d_dead_unreachable@)
    &&& agree(e.d_dead_list@, z.d_dead_list@)
    &&& agree(e.d_dead_fix@, z.d_dead_fix@)
    &&& agree(e.d_not_inside@, z.d_not_inside@)
    &&& agree(e.d_inside@, z.d_inside@)
    &&& agree(e.d_inside_fix@, z.d_inside_fix@)
    &&& agree(e.d_size_small@, z.d_size_small@)
    &&& agree(e.d_size_err@, z.d_size_err@)
    &&& agree(e.d_config_missing@, z.d_config_missing@)
    &&& agree(e.d_config_missing_fix@, z.d_config_missing_fix@)
    &&& agree(e.d_config_ok@, z.d_config_ok@)
    &&& agree(e.d_config_fail@, z.d_config_fail@)
    &&& agree(e.d_config_perm_fix@, z.d_config_perm_fix@)
    &&& agree(e.d_no_session_probe@, z.d_no_session_probe@)
    &&& agree(e.d_no_session_probe_fix@, z.d_no_session_probe_fix@)
    &&& agree(e.d_hist_yes@, z.d_hist_yes@)
    &&& agree(e.d_hist_no@, z.d_hist_no@)
    &&& agree(e.d_hist_unknown@, z.d_hist_unknown@)
    &&& agree(e.d_hc_ok@, z.d_hc_ok@)
    &&& agree(e.d_hc_no@, z.d_hc_no@)
    &&& agree(e.d_hc_unknown@, z.d_hc_unknown@)
    &&& agree(e.d_hc_probe_failed@, z.d_hc_probe_failed@)
    &&& agree(e.d_note11@, z.d_note11@)
    &&& agree(e.name_empty@, z.name_empty@)
    &&& agree(e.name_leading_dash@, z.name_leading_dash@)
    &&& agree(e.name_bad_char@, z.name_bad_char@)
    &&& agree(e.name_too_long@, z.name_too_long@)
    &&& agree(e.f_name@, z.f_name@)
    &&& agree(e.f_dir@, z.f_dir@)
    &&& agree(e.f_command@, z.f_command@)
    &&& agree(e.dir_empty@, z.dir_empty@)
    &&& agree(e.not_a_directory@, z.not_a_directory@)
    &&& agree(e.duplicate_note@, z.duplicate_note@)
    &&& agree(e.name_was_taken@, z.name_was_taken@)
    &&& agree(e.created@, z.created@)
    &&& agree(e.created_with_hint@, z.created_with_hint@)
    &&& agree(e.skip_not_listed@, z.skip_not_listed@)
    &&& agree(e.skip_not_unique@, z.skip_not_unique@)
    &&& agree(e.not_entering@, z.not_entering@)
    &&& agree(e.create_failed@, z.create_failed@)
    &&& agree(e.screen_refused@, z.screen_refused@)
    &&& agree(e.screen_no_diagnostic@, z.screen_no_diagnostic@)
    &&& agree(e.act_detach@, z.act_detach@)
    &&& agree(e.act_kill@, z.act_kill@)
    &&& agree(e.act_wipe@, z.act_wipe@)
    &&& agree(e.act_cleanup@, z.act_cleanup@)
    &&& agree(e.consequence_detach@, z.consequence_detach@)
    &&& agree(e.consequence_kill@, z.consequence_kill@)
    &&& agree(e.consequence_wipe@, z.consequence_wipe@)
    &&& agree(e.consequence_cleanup@, z.consequence_cleanup@)
    &&& agree(e.verify_failed@, z.verify_failed@)
    &&& agree(e.verify_failed_action@, z.verify_failed_action@)
    &&& agree(e.session_gone@, z.session_gone@)
    &&& agree(e.unknown_state@, z.unknown_state@)
    &&& agree(e.not_connectable_share@, z.not_connectable_share@)
    &&& agree(e.dead_wipe_hint@, z.dead_wipe_hint@)
    &&& agree(e.unreachable_hint@, z.unreachable_hint@)
    &&& agree(e.multi_note@, z.multi_note@)
    &&& agree(e.not_attached@, z.not_attached@)
    &&& agree(e.no_dead_to_wipe@, z.no_dead_to_wipe@)
    &&& agree(e.dead_sessions_display@, z.dead_sessions_display@)
    &&& agree(e.no_dead_left@, z.no_dead_left@)
    &&& agree(e.gone_kill@, z.gone_kill@)
    &&& agree(e.kill_attached@, z.kill_attached@)
    &&& agree(e.gone_detach@, z.gone_detach@)
    &&& agree(e.no_longer_attached@, z.no_longer_attached@)
    &&& agree(e.wiped@, z.wiped@)
    &&& agree(e.action_done@, z.action_done@)
    &&& agree(e.action_failed@, z.action_failed@)
    &&& agree(e.action_failed_short@, z.action_failed_short@)
    &&& agree(e.nothing_to_do@, z.nothing_to_do@)
    &&& agree(e.attach_failed@, z.attach_failed@)
    &&& agree(e.attach_exit_code@, z.attach_exit_code@)
    &&& agree(e.detached_from@, z.detached_from@)
    &&& agree(e.screen_exit_code@, z.screen_exit_code@)
    &&& agree(e.renamed_to@, z.renamed_to@)
    &&& agree(e.rename_failed@, z.rename_failed@)
    &&& agree(e.rename_failed_short@, z.rename_failed_short@)
    &&& agree(e.meta_alias@, z.meta_alias@)
    &&& agree(e.meta_note@, z.meta_note@)
    &&& agree(e.meta_updated@, z.meta_updated@)
    &&& agree(e.meta_kept_ro@, z.meta_kept_ro@)
    &&& agree(e.no_stale_metadata@, z.no_stale_metadata@)
    &&& agree(e.stale_entries@, z.stale_entries@)
    &&& agree(e.removed_stale@, z.removed_stale@)
    &&& agree(e.removed_stale_ro@, z.removed_stale_ro@)
    &&& agree(e.restart_still_running@, z.restart_still_running@)
    &&& agree(e.restart_not_managed@, z.restart_not_managed@)
    &&& agree(e.restart_unmanaged@, z.restart_unmanaged@)
    &&& agree(e.restart_no_record@, z.restart_no_record@)
    &&& agree(e.restarted@, z.restarted@)
    &&& agree(e.restart_failed@, z.restart_failed@)
    &&& agree(e.restart_failed_short@, z.restart_failed_short@)
    &&& agree(e.preview_not_running@, z.preview_not_running@)
    &&& agree(e.preview_unavailable@, z.preview_unavailable@)
    &&& agree(e.detach_hint_some@, z.detach_hint_some@)
    &&& agree(e.detach_hint_default@, z.detach_hint_default@)
    &&& agree(e.refresh_failed@, z.refresh_failed@)
    &&& agree(e.header_self@, z.header_self@)
    &&& agree(e.inside_sty@, z.inside_sty@)
    &&& agree(e.attach_self@, z.attach_self@)
    &&& agree(e.desc_self_marker@, z.desc_self_marker@)
    &&& agree(e.list_empty@, z.list_empty@)
    &&& agree(e.list_filter_empty@, z.list_filter_empty@)
    &&& agree(e.header_sessions@, z.header_sessions@)
    &&& agree(e.header_dead@, z.header_dead@)
    &&& agree(e.footer_wide_1@, z.footer_wide_1@)
    &&& agree(e.footer_wide_2@, z.footer_wide_2@)
    &&& agree(e.footer_wipe_dead@, z.footer_wipe_dead@)
    &&& agree(e.footer_mid@, z.footer_mid@)
    &&& agree(e.footer_wipe@, z.footer_wipe@)
    &&& agree(e.footer_tiny@, z.footer_tiny@)
    &&& agree(e.footer_refresh@, z.footer_refresh@)
    &&& agree(e.footer_manual@, z.footer_manual@)
    &&& agree(e.error_title@, z.error_title@)
    &&& agree(e.error_hint@, z.error_hint@)
    &&& agree(e.help_title@, z.help_title@)
    &&& agree(e.desc_move@, z.desc_move@)
    &&& agree(e.desc_attach@, z.desc_attach@)
    &&& agree(e.desc_quick@, z.desc_quick@)
    &&& agree(e.desc_share@, z.desc_share@)
    &&& agree(e.desc_preview@, z.desc_preview@)
    &&& agree(e.desc_new@, z.desc_new@)
    &&& agree(e.desc_detail@, z.desc_detail@)
    &&& agree(e.desc_filter@, z.desc_filter@)
    &&& agree(e.desc_detach@, z.desc_detach@)
    &&& agree(e.desc_kill@, z.desc_kill@)
    &&& agree(e.desc_rename@, z.desc_rename@)
    &&& agree(e.desc_wipe@, z.desc_wipe@)
    &&& agree(e.desc_refresh@, z.desc_refresh@)
    &&& agree(e.desc_quit@, z.desc_quit@)
    &&& agree(e.version_unknown@, z.version_unknown@)
    &&& agree(e.detail_title@, z.detail_title@)
    &&& agree(e.detail_nothing@, z.detail_nothing@)
    &&& agree(e.detail_hint@, z.detail_hint@)
    &&& agree(e.dl_name@, z.dl_name@)
    &&& agree(e.dl_address@, z.dl_address@)
    &&& agree(e.dl_pid@, z.dl_pid@)
    &&& agree(e.dl_status@, z.dl_status@)
    &&& agree(e.dl_created@, z.dl_created@)
    &&& agree(e.dl_windows@, z.dl_windows@)
    &&& agree(e.dl_cwd@, z.dl_cwd@)
    &&& agree(e.dl_command@, z.dl_command@)
    &&& agree(e.dl_alias@, z.dl_alias@)
    &&& agree(e.dl_note@, z.dl_note@)
    &&& agree(e.dl_managed@, z.dl_managed@)
    &&& agree(e.dl_managed_yes@, z.dl_managed_yes@)
    &&& agree(e.meta_title@, z.meta_title@)
    &&& agree(e.meta_line@, z.meta_line@)
    &&& agree(e.meta_hint@, z.meta_hint@)
    &&& agree(e.rename_title@, z.rename_title@)
    &&& agree(e.rename_new_name@, z.rename_new_name@)
    &&& agree(e.rename_hint@, z.rename_hint@)
    &&& agree(e.confirm_title@, z.confirm_title@)
    &&& agree(e.confirm_session@, z.confirm_session@)
    &&& agree(e.confirm_command@, z.confirm_command@)
    &&& agree(e.confirm_yes@, z.confirm_yes@)
    &&& agree(e.confirm_cancel@, z.confirm_cancel@)
    &&& agree(e.confirm_hint@, z.confirm_hint@)
    &&& agree(e.filter_title@, z.filter_title@)
    &&& agree(e.filter_match@, z.filter_match@)
    &&& agree(e.filter_hint@, z.filter_hint@)
    &&& agree(e.attach_title@, z.attach_title@)
    &&& agree(e.attach_line@, z.attach_line@)
    &&& agree(e.attach_share@, z.attach_share@)
    &&& agree(e.attach_takeover@, z.attach_takeover@)
    &&& agree(e.attach_hint@, z.attach_hint@)
    &&& agree(e.preview_pane_hint@, z.preview_pane_hint@)
    &&& agree(e.preview_title@, z.preview_title@)
    &&& agree(e.preview_overlay_title@, z.preview_overlay_title@)
    &&& agree(e.preview_fetched@, z.preview_fetched@)
    &&& agree(e.preview_empty@, z.preview_empty@)
    &&& agree(e.new_title@, z.new_title@)
    &&& agree(e.new_hint@, z.new_hint@)
    &&& agree(e.new_recent@, z.new_recent@)
}

/// The two languages hold the same texts, and no text is empty.
pub proof fn both_languages_are_complete()
    ensures
        same_texts(dict_of(Lang::En), dict_of(Lang::Zh)),
{
    lemma_from_note_label();
    lemma_from_st_unreachable();
    lemma_from_d_name_enum();
    lemma_from_d_value_empty();
    lemma_from_d_ls_failed();
    lemma_from_d_screendir_empty_fix();
    lemma_from_d_enum_exit9();
    lemma_from_d_enum_code();
    lemma_from_d_ti_failed();
    lemma_from_d_utf8_none_fix();
    lemma_from_d_dead_list();
    lemma_from_d_size_small();
    lemma_from_d_config_ok();
    lemma_from_d_hc_ok();
    lemma_from_d_note11();
    lemma_from_duplicate_note();
    lemma_from_act_wipe();
    lemma_from_unreachable_hint();
    lemma_from_no_longer_attached();
    lemma_from_rename_failed_short();
    lemma_from_restart_unmanaged();
    lemma_from_detach_hint_default();
    lemma_from_header_sessions();
    lemma_from_error_hint();
    lemma_from_desc_rename();
    lemma_from_dl_created();
    lemma_from_rename_new_name();
    lemma_from_attach_line();
}

} // verus!

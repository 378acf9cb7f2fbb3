//! The Chinese texts.

use super::dict::Dict;
use vstd::prelude::*;

verus! {

/// The Chinese texts.
#[verifier::opaque]
pub open spec fn chinese_texts() -> Dict {
    Dict {
        note_label: "提示",
        ls_no_sessions: "# 未发现 screen 会话（socket 目录 {0}）",
        ls_summary: "# {0} 个会话 · socket 目录 {1} · {2}",
        ls_col_idx: "#",
        ls_col_name: "名字",
        ls_col_status: "状态",
        ls_col_pid: "PID",
        ls_col_created: "创建时间",
        st_detached: "分离",
        st_attached: "连接",
        st_multi: "多路",
        st_dead: "死亡",
        st_unreachable: "不可达",
        outlook_no_sessions: "无会话（exit 9）",
        outlook_unconnectable: "有会话但均不可连接（exit 10）",
        outlook_available: "可用（exit {0}）",
        outlook_inconclusive: "无法判定（exit {0}，不在手册 9/10/11+ 表内）",
        d_title: "stui doctor — 环境自检",
        d_fix: "修复：",
        d_summary: "{0} 项通过 · {1} 项警告 · {2} 项失败",
        d_notes: "说明：",
        d_name_screen: "screen 可执行文件",
        d_name_version: "版本",
        d_name_socket: "socket 目录",
        d_name_enum: "会话枚举",
        d_name_terminfo: "terminfo",
        d_name_utf8: "UTF-8 locale",
        d_name_dead: "dead 会话",
        d_name_nesting: "screen 嵌套",
        d_name_size: "终端尺寸",
        d_name_config: "配置目录",
        d_name_preview: "预览能力",
        d_screen_missing_fix: "安装 GNU Screen：`apt install screen`（Debian/Ubuntu）| `yum install screen`（RHEL）| `brew install screen`（macOS）",
        d_version_na: "screen 不可用，无法确定版本",
        d_install_screen: "请先安装 GNU Screen",
        d_version_unparsed: "无法从 `screen -v` 输出解析版本号：{0}",
        d_value_empty: "<空>",
        d_caps_live_fix: "能力开关来自实跑探测，stui 仍可正常工作",
        d_q_ok: "{0}；`-Q` 查询可用",
        d_q_no: "{0}；此版本不支持 `-Q` 查询 —— 窗口数/标题依赖 `-Q`，将不显示。核心功能不受影响。",
        d_q_no_fix: "无需处理；Screen 4.6 以下属正常现象",
        d_q_unknown: "{0}；无法验证 `-Q`（没有可用会话来测试）",
        d_q_unknown_fix: "存在会话时重新运行 `stui doctor` 可得到确定结论",
        d_ls_failed: "`screen -ls` 失败：{0}",
        d_screendir_fix: "确认 $SCREENDIR 与 $TMPDIR 未设置或非空 —— 空值会让所有 screen 调用失败；同时检查 socket 目录权限",
        d_screendir_empty: "`-ls` 可用，但 $SCREENDIR 被导出为空。当前版本恰好容忍此情况（screen 回退到 `$TMPDIR/.screen`），但在其他版本上空 SCREENDIR 曾导致 `Cannot access ...`。",
        d_screendir_empty_fix: "取消 SCREENDIR，或导出为真实路径",
        d_socket_ok: "`-ls` 可达；socket 目录 {0}",
        d_not_reported: "`-ls` 未报告",
        d_enum_cannot: "无法运行 `screen -q -ls`",
        d_fix_screen_first: "请先修复「screen 可执行文件」检查项",
        d_enum_exit10: "`-q -ls` 退出码 10：有会话但均不可连接（列出 {0} 条）；手册将此归为权限问题",
        d_enum_perm_fix: "检查 socket 目录的属主与权限",
        d_enum_exit9: "`-q -ls` 报告无会话（退出码 9）但 `-ls` 列出 {0} 条；以 `-ls` 为准。手册的 9/10/11+ 退出码表并非在所有版本上都可靠。",
        d_enum_mismatch: "`-q -ls` 报告 {0} 个会话但 `-ls` 明细为 {1} 条；以 `-ls` 为准",
        d_enum_code: "`-q -ls` 退出码 {0}，不在手册 9/10/11+ 表内（Screen 4.00.03 实测：无会话时为 8）。stui 回退为解析 `-ls` 文本；找到 {1} 个会话。",
        d_enum_code_fix: "无需处理；已记录到版本能力矩阵",
        d_enum_ok: "{0} 个会话 · {1}",
        d_ti_present: "`screen-256color` 存在",
        d_ti_failed: "`infocmp screen-256color` 失败（退出码 {0}）；stui 退回普通 `screen` terminfo，会话内的 256 色输出可能无法渲染",
        d_ti_fix: "安装 ncurses terminfo 扩展：`apt install ncurses-term`（Debian/Ubuntu）",
        d_ti_missing: "`infocmp` 不可用，无法验证 terminfo",
        d_ti_missing_fix: "如需此检查生效请安装 ncurses-bin（Debian/Ubuntu）",
        d_utf8_none: "未设置任何 locale 变量",
        d_utf8_none_fix: "export LANG=<你的>.UTF-8；否则 CJK/emoji 会话名可能错位",
        d_utf8_not: "locale 不是 UTF-8（{0}）；CJK/emoji 会话名可能显示错误或错位",
        d_utf8_fix: "export LANG=<你的>.UTF-8（仅建议，不会替你执行）：在 ~/.screenrc 加 `defutf8 on` —— stui 绝不修改你的 screenrc",
        d_cannot_enum: "无法枚举会话",
        d_dead_none: "无",
        d_dead_unreachable: "无 dead，但有 {0} 个 unreachable（仅展示，绝不连接）",
        d_dead_list: "{0} 个 dead 会话：{1} —— 会污染列表且可能误触",
        d_dead_fix: "运行 `screen -wipe`（或在 TUI 中按 `W`）—— stui 总会先要求确认",
        d_not_inside: "不在 screen 会话内运行（$STY 未设置）",
        d_inside: "正运行在 screen 会话内（STY={0}）；screen 拒绝从自身内部连接",
        d_inside_fix: "先 detach，或使用共享连接（`-x`）—— 唯一能从内部使用的方式",
        d_size_small: "{0}x{1} —— 过小；TUI 将回退到最小布局（只影响 TUI，不影响 `ls` 与 `doctor`）",
        d_size_err: "无法确定终端尺寸（{0}）；stdout 可能不是 TTY —— 只有 TUI 需要，`ls` 与 `doctor` 不需要",
        d_config_missing: "$HOME 未设置，且 $SCREEN_TUI_HOME 与 $XDG_CONFIG_HOME 均不可用",
        d_config_missing_fix: "设置 $HOME，或将 $SCREEN_TUI_HOME 指向可写目录",
        d_config_ok: "{0} —— 可写，权限 0700",
        d_config_fail: "{0} —— 写入探测失败：{1}",
        d_config_perm_fix: "检查 {0} 的属主与权限",
        d_no_session_probe: "没有可连接会话来测试 `-X hardcopy`；能力未验证（未写盘）",
        d_no_session_probe_fix: "创建一个会话（`screen -dmS probe sleep 60`）后重新运行 doctor 以验证预览",
        d_hist_yes: "历史缓冲（-h）可用",
        d_hist_no: "历史缓冲（-h）不可用",
        d_hist_unknown: "历史缓冲（-h）未验证",
        d_hc_ok: "`-X hardcopy` 在 {0} 上可用（{1}）",
        d_hc_no: "此版本不支持 `-X hardcopy`（{0}）；预览面板将只显示元数据 —— 绝不显示过期或伪造内容",
        d_hc_unknown: "无法验证 `-X hardcopy`（{0}）；预览降级为仅元数据",
        d_hc_probe_failed: "hardcopy 探测失败：{0}；预览降级为仅元数据",
        d_note11: "第 11 项是唯一有副作用的检查：它会向一个 0600 临时文件写入真实的 `-X hardcopy`，读完立即删除。",
        name_empty: "名字不能为空",
        name_leading_dash: "名字不能以 '-' 开头（screen 会把它当选项）",
        name_bad_char: "名字不能包含空白或控制字符（发现 {0}）",
        name_too_long: "名字超过 {0} 个字符",
        f_name: "名字",
        f_dir: "目录",
        f_command: "命令",
        dir_empty: "目录不能为空",
        not_a_directory: "不是目录：{0}",
        duplicate_note: "同名会话 '{0}' 已存在；请用 <pid>.{0} 寻址",
        name_was_taken: "'{0}' 已被占用；已使用 '{1}'",
        created: "已创建 '{0}'",
        created_with_hint: "已创建 '{0}'（{1}）",
        skip_not_listed: "它尚未出现在会话列表中",
        skip_not_unique: "名字不唯一；请用 <pid>.<名字> 连接",
        not_entering: "{0}；未进入：{1}",
        create_failed: "创建失败：{0}",
        screen_refused: "screen 拒绝创建 '{0}'（退出码 {1}）：\n  {2} 运行于 {3}\n  {4}",
        screen_no_diagnostic: "screen 未给出诊断输出；请检查名字与目录",
        act_detach: "断开",
        act_kill: "终止",
        act_wipe: "清理",
        act_cleanup: "清档",
        consequence_detach: "断开已连接的客户端（会话继续运行）",
        consequence_kill: "终止该会话及其全部窗口",
        consequence_wipe: "删除所有 dead 会话的 socket",
        consequence_cleanup: "忘记已不存在会话的元数据",
        verify_failed: "连接前无法校验会话状态：{0}",
        verify_failed_action: "{0}前无法校验会话状态：{1}",
        session_gone: "会话 '{0}' 已消失；列表已刷新",
        unknown_state: "'{0}' 状态未知（'{1}'）；拒绝连接",
        not_connectable_share: "'{0}' 不可连接；无法共享",
        dead_wipe_hint: "'{0}' 已死亡；请先清理再连接",
        unreachable_hint: "'{0}' 不可达；请检查 socket 目录",
        multi_note: "已有多个终端共享；加入可能改变所有人的窗口尺寸（resize）",
        not_attached: "'{0}' 未被连接；无可断开（用 Enter 连接）",
        no_dead_to_wipe: "没有 dead 会话；无需清理",
        dead_sessions_display: "dead 会话",
        no_dead_left: "已无 dead 会话；无需清理",
        gone_kill: "'{0}' 已消失；无需终止",
        kill_attached: "'{0}' 正被连接；拒绝终止（请先断开）",
        gone_detach: "'{0}' 已消失；无可断开",
        no_longer_attached: "'{0}' 已不再被连接（现为 {1}）；无可断开",
        wiped: "dead 会话已清理",
        action_done: "'{0}' {1}完成",
        action_failed: "{0} '{1}' 失败（退出码 {2}）{3}",
        action_failed_short: "{0}失败：{1}",
        nothing_to_do: "无可执行操作",
        attach_failed: "连接失败：{0}",
        attach_exit_code: "连接失败：screen 退出码 {0}",
        detached_from: "已从 '{0}' 断开（detached）",
        screen_exit_code: "screen 退出码 {0}（{1}）",
        renamed_to: "会话已重命名为 '{0}'",
        rename_failed: "重命名失败（退出码 {0}）：{1}",
        rename_failed_short: "重命名失败：{0}",
        meta_alias: "别名",
        meta_note: "备注",
        meta_updated: "'{0}' 的{1}已更新",
        meta_kept_ro: "'{0}' 的{1}仅本会话生效（未写配置文件）",
        no_stale_metadata: "没有可清理的过期元数据",
        stale_entries: "{0} 条过期元数据",
        removed_stale: "已删除 {0} 条过期元数据",
        removed_stale_ro: "已删除 {0} 条过期元数据（仅本会话生效，未写配置文件）",
        restart_still_running: "'{0}' 仍在运行；重启只适用于 dead 会话",
        restart_not_managed: "'{0}' 非 stui 创建；不可重启",
        restart_unmanaged: "'{0}' 非托管会话；重启仅适用于 stui 创建的会话",
        restart_no_record: "'{0}' 没有记录命令/目录；无法重启",
        restarted: "已用记录的命令重启 '{0}'",
        restart_failed: "'{0}' 重启失败（退出码 {1}）：{2}",
        restart_failed_short: "重启失败：{0}",
        preview_not_running: "'{0}' 未在运行；没有可预览的内容",
        preview_unavailable: "预览不可用：此 screen 版本的 hardcopy 支持为 {0}（详情运行 `stui doctor`）",
        detach_hint_some: "提示：按 {0} d 断开",
        detach_hint_default: "提示：按 Ctrl-A D 断开（默认前缀 —— 若你改过前缀，请用你的前缀 + d）",
        refresh_failed: "刷新失败：{0}",
        header_self: "  ·  ● 当前在 screen: {0}",
        inside_sty: "正运行在 screen 会话内；连接会造成嵌套",
        attach_self: "你正在 '{0}' 会话内；screen 拒绝从自身内部连接",
        desc_self_marker: "标记你所在的会话",
        list_empty: "没有 screen 会话。按 n 新建。",
        list_filter_empty: "没有会话匹配 '/{0}'。按 Esc 清除过滤。",
        header_sessions: "  {0} 个会话 · {1} 个已连接",
        header_dead: " · {0} 个 dead",
        footer_wide_1: " j/k 移动  Enter 连接  1-9 快选  n 新建  x 共享  i 详情  R 刷新",
        footer_wide_2: " / 过滤  D 断开  K 终止  r 重命名  W 清理(dead)  s 重启  X 清档  ? 帮助  q 退出",
        footer_wipe_dead: "  W 清理 dead",
        footer_mid: " n 新建  1-9 连接  i 详情  / 查找  K 终止  ? 帮助  q 退出",
        footer_wipe: "  W 清理",
        footer_tiny: " ? 帮助  q 退出",
        footer_refresh: " 每 {0}s 刷新",
        footer_manual: " 手动刷新（R）",
        error_title: " 错误 ",
        error_hint: "Enter / Esc 关闭",
        help_title: " 帮助 ",
        desc_move: " 移动选择",
        desc_attach: "     进入会话（stui 被 screen 替换，退出后回原 shell）",
        desc_quick: "        按行号快速连接",
        desc_share: "        共享连接（-x）",
        desc_preview: "        预览快照",
        desc_new: "        新建会话",
        desc_detail: "        选中会话详情",
        desc_filter: "        过滤会话",
        desc_detach: "        远程断开",
        desc_kill: "        终止（需确认）",
        desc_rename: "        重命名",
        desc_wipe: "        清理 dead（需确认）",
        desc_refresh: "        立即刷新",
        desc_quit: "  退出 / 关闭",
        version_unknown: "版本未知",
        detail_title: " 详情 ",
        detail_nothing: " 未选中会话",
        detail_hint: " a 别名 · t 备注 · Esc 关闭",
        dl_name: "名字",
        dl_address: "地址",
        dl_pid: "PID",
        dl_status: "状态",
        dl_created: "创建时间",
        dl_windows: "窗口",
        dl_cwd: "目录",
        dl_command: "命令",
        dl_alias: "别名",
        dl_note: "备注",
        dl_managed: "托管",
        dl_managed_yes: "是（stui 创建；按 s 重启）",
        meta_title: " 元数据 ",
        meta_line: " '{1}' 的{0}：",
        meta_hint: " Enter 保存 · 留空清除 · Esc 取消",
        rename_title: " 重命名 ",
        rename_new_name: " 新名字：",
        rename_hint: " Enter 重命名 · Esc 取消",
        confirm_title: " 确认：{0}",
        confirm_session: " 会话：{0}",
        confirm_command: " 命令：{0}",
        confirm_yes: " [ 是 ] ",
        confirm_cancel: " [ 取消 ] ",
        confirm_hint: " ←/→ 切换焦点 · Enter 执行焦点项 · y 确认 · Esc 取消",
        filter_title: " 过滤 ",
        filter_match: " {0}/{1} 个会话匹配",
        filter_hint: " Enter 应用 · Esc 清除过滤",
        attach_title: " 连接 ",
        attach_line: " '{0}' 正被其他终端连接：",
        attach_share: "共享连接（-x）",
        attach_takeover: "断开对方并接管（-d -r）",
        attach_hint: " 1 共享 · 2 接管 · Esc 取消",
        preview_pane_hint: " 按 p 抓取选中会话的快照",
        preview_title: " 预览 ",
        preview_overlay_title: " 预览 - {0} · 抓取于 {1} ",
        preview_fetched: " 抓取于 {0} · 会话 {1}",
        preview_empty: " （空窗口）",
        new_title: " 新建会话 ",
        new_hint: " Tab/↓ 下一项 · ↑ 上一项 · Enter 创建 · Esc 取消",
        new_recent: " 最近目录（1-9）：",
    }
}

/// The Chinese texts.
pub fn chinese() -> (r: Dict)
    ensures
        r == chinese_texts(),
{
    reveal(chinese_texts);
    Dict {
        note_label: "提示",
        ls_no_sessions: "# 未发现 screen 会话（socket 目录 {0}）",
        ls_summary: "# {0} 个会话 · socket 目录 {1} · {2}",
        ls_col_idx: "#",
        ls_col_name: "名字",
        ls_col_status: "状态",
        ls_col_pid: "PID",
        ls_col_created: "创建时间",
        st_detached: "分离",
        st_attached: "连接",
        st_multi: "多路",
        st_dead: "死亡",
        st_unreachable: "不可达",
        outlook_no_sessions: "无会话（exit 9）",
        outlook_unconnectable: "有会话但均不可连接（exit 10）",
        outlook_available: "可用（exit {0}）",
        outlook_inconclusive: "无法判定（exit {0}，不在手册 9/10/11+ 表内）",
        d_title: "stui doctor — 环境自检",
        d_fix: "修复：",
        d_summary: "{0} 项通过 · {1} 项警告 · {2} 项失败",
        d_notes: "说明：",
        d_name_screen: "screen 可执行文件",
        d_name_version: "版本",
        d_name_socket: "socket 目录",
        d_name_enum: "会话枚举",
        d_name_terminfo: "terminfo",
        d_name_utf8: "UTF-8 locale",
        d_name_dead: "dead 会话",
        d_name_nesting: "screen 嵌套",
        d_name_size: "终端尺寸",
        d_name_config: "配置目录",
        d_name_preview: "预览能力",
        d_screen_missing_fix: "安装 GNU Screen：`apt install screen`（Debian/Ubuntu）| `yum install screen`（RHEL）| `brew install screen`（macOS）",
        d_version_na: "screen 不可用，无法确定版本",
        d_install_screen: "请先安装 GNU Screen",
        d_version_unparsed: "无法从 `screen -v` 输出解析版本号：{0}",
        d_value_empty: "<空>",
        d_caps_live_fix: "能力开关来自实跑探测，stui 仍可正常工作",
        d_q_ok: "{0}；`-Q` 查询可用",
        d_q_no: "{0}；此版本不支持 `-Q` 查询 —— 窗口数/标题依赖 `-Q`，将不显示。核心功能不受影响。",
        d_q_no_fix: "无需处理；Screen 4.6 以下属正常现象",
        d_q_unknown: "{0}；无法验证 `-Q`（没有可用会话来测试）",
        d_q_unknown_fix: "存在会话时重新运行 `stui doctor` 可得到确定结论",
        d_ls_failed: "`screen -ls` 失败：{0}",
        d_screendir_fix: "确认 $SCREENDIR 与 $TMPDIR 未设置或非空 —— 空值会让所有 screen 调用失败；同时检查 socket 目录权限",
        d_screendir_empty: "`-ls` 可用，但 $SCREENDIR 被导出为空。当前版本恰好容忍此情况（screen 回退到 `$TMPDIR/.screen`），但在其他版本上空 SCREENDIR 曾导致 `Cannot access ...`。",
        d_screendir_empty_fix: "取消 SCREENDIR，或导出为真实路径",
        d_socket_ok: "`-ls` 可达；socket 目录 {0}",
        d_not_reported: "`-ls` 未报告",
        d_enum_cannot: "无法运行 `screen -q -ls`",
        d_fix_screen_first: "请先修复「screen 可执行文件」检查项",
        d_enum_exit10: "`-q -ls` 退出码 10：有会话但均不可连接（列出 {0} 条）；手册将此归为权限问题",
        d_enum_perm_fix: "检查 socket 目录的属主与权限",
        d_enum_exit9: "`-q -ls` 报告无会话（退出码 9）但 `-ls` 列出 {0} 条；以 `-ls` 为准。手册的 9/10/11+ 退出码表并非在所有版本上都可靠。",
        d_enum_mismatch: "`-q -ls` 报告 {0} 个会话但 `-ls` 明细为 {1} 条；以 `-ls` 为准",
        d_enum_code: "`-q -ls` 退出码 {0}，不在手册 9/10/11+ 表内（Screen 4.00.03 实测：无会话时为 8）。stui 回退为解析 `-ls` 文本；找到 {1} 个会话。",
        d_enum_code_fix: "无需处理；已记录到版本能力矩阵",
        d_enum_ok: "{0} 个会话 · {1}",
        d_ti_present: "`screen-256color` 存在",
        d_ti_failed: "`infocmp screen-256color` 失败（退出码 {0}）；stui 退回普通 `screen` terminfo，会话内的 256 色输出可能无法渲染",
        d_ti_fix: "安装 ncurses terminfo 扩展：`apt install ncurses-term`（Debian/Ubuntu）",
        d_ti_missing: "`infocmp` 不可用，无法验证 terminfo",
        d_ti_missing_fix: "如需此检查生效请安装 ncurses-bin（Debian/Ubuntu）",
        d_utf8_none: "未设置任何 locale 变量",
        d_utf8_none_fix: "export LANG=<你的>.UTF-8；否则 CJK/emoji 会话名可能错位",
        d_utf8_not: "locale 不是 UTF-8（{0}）；CJK/emoji 会话名可能显示错误或错位",
        d_utf8_fix: "export LANG=<你的>.UTF-8（仅建议，不会替你执行）：在 ~/.screenrc 加 `defutf8 on` —— stui 绝不修改你的 screenrc",
        d_cannot_enum: "无法枚举会话",
        d_dead_none: "无",
        d_dead_unreachable: "无 dead，但有 {0} 个 unreachable（仅展示，绝不连接）",
        d_dead_list: "{0} 个 dead 会话：{1} —— 会污染列表且可能误触",
        d_dead_fix: "运行 `screen -wipe`（或在 TUI 中按 `W`）—— stui 总会先要求确认",
        d_not_inside: "不在 screen 会话内运行（$STY 未设置）",
        d_inside: "正运行在 screen 会话内（STY={0}）；screen 拒绝从自身内部连接",
        d_inside_fix: "先 detach，或使用共享连接（`-x`）—— 唯一能从内部使用的方式",
        d_size_small: "{0}x{1} —— 过小；TUI 将回退到最小布局（只影响 TUI，不影响 `ls` 与 `doctor`）",
        d_size_err: "无法确定终端尺寸（{0}）；stdout 可能不是 TTY —— 只有 TUI 需要，`ls` 与 `doctor` 不需要",
        d_config_missing: "$HOME 未设置，且 $SCREEN_TUI_HOME 与 $XDG_CONFIG_HOME 均不可用",
        d_config_missing_fix: "设置 $HOME，或将 $SCREEN_TUI_HOME 指向可写目录",
        d_config_ok: "{0} —— 可写，权限 0700",
        d_config_fail: "{0} —— 写入探测失败：{1}",
        d_config_perm_fix: "检查 {0} 的属主与权限",
        d_no_session_probe: "没有可连接会话来测试 `-X hardcopy`；能力未验证（未写盘）",
        d_no_session_probe_fix: "创建一个会话（`screen -dmS probe sleep 60`）后重新运行 doctor 以验证预览",
        d_hist_yes: "历史缓冲（-h）可用",
        d_hist_no: "历史缓冲（-h）不可用",
        d_hist_unknown: "历史缓冲（-h）未验证",
        d_hc_ok: "`-X hardcopy` 在 {0} 上可用（{1}）",
        d_hc_no: "此版本不支持 `-X hardcopy`（{0}）；预览面板将只显示元数据 —— 绝不显示过期或伪造内容",
        d_hc_unknown: "无法验证 `-X hardcopy`（{0}）；预览降级为仅元数据",
        d_hc_probe_failed: "hardcopy 探测失败：{0}；预览降级为仅元数据",
        d_note11: "第 11 项是唯一有副作用的检查：它会向一个 0600 临时文件写入真实的 `-X hardcopy`，读完立即删除。",
        name_empty: "名字不能为空",
        name_leading_dash: "名字不能以 '-' 开头（screen 会把它当选项）",
        name_bad_char: "名字不能包含空白或控制字符（发现 {0}）",
        name_too_long: "名字超过 {0} 个字符",
        f_name: "名字",
        f_dir: "目录",
        f_command: "命令",
        dir_empty: "目录不能为空",
        not_a_directory: "不是目录：{0}",
        duplicate_note: "同名会话 '{0}' 已存在；请用 <pid>.{0} 寻址",
        name_was_taken: "'{0}' 已被占用；已使用 '{1}'",
        created: "已创建 '{0}'",
        created_with_hint: "已创建 '{0}'（{1}）",
        skip_not_listed: "它尚未出现在会话列表中",
        skip_not_unique: "名字不唯一；请用 <pid>.<名字> 连接",
        not_entering: "{0}；未进入：{1}",
        create_failed: "创建失败：{0}",
        screen_refused: "screen 拒绝创建 '{0}'（退出码 {1}）：\n  {2} 运行于 {3}\n  {4}",
        screen_no_diagnostic: "screen 未给出诊断输出；请检查名字与目录",
        act_detach: "断开",
        act_kill: "终止",
        act_wipe: "清理",
        act_cleanup: "清档",
        consequence_detach: "断开已连接的客户端（会话继续运行）",
        consequence_kill: "终止该会话及其全部窗口",
        consequence_wipe: "删除所有 dead 会话的 socket",
        consequence_cleanup: "忘记已不存在会话的元数据",
        verify_failed: "连接前无法校验会话状态：{0}",
        verify_failed_action: "{0}前无法校验会话状态：{1}",
        session_gone: "会话 '{0}' 已消失；列表已刷新",
        unknown_state: "'{0}' 状态未知（'{1}'）；拒绝连接",
        not_connectable_share: "'{0}' 不可连接；无法共享",
        dead_wipe_hint: "'{0}' 已死亡；请先清理再连接",
        unreachable_hint: "'{0}' 不可达；请检查 socket 目录",
        multi_note: "已有多个终端共享；加入可能改变所有人的窗口尺寸（resize）",
        not_attached: "'{0}' 未被连接；无可断开（用 Enter 连接）",
        no_dead_to_wipe: "没有 dead 会话；无需清理",
        dead_sessions_display: "dead 会话",
        no_dead_left: "已无 dead 会话；无需清理",
        gone_kill: "'{0}' 已消失；无需终止",
        kill_attached: "'{0}' 正被连接；拒绝终止（请先断开）",
        gone_detach: "'{0}' 已消失；无可断开",
        no_longer_attached: "'{0}' 已不再被连接（现为 {1}）；无可断开",
        wiped: "dead 会话已清理",
        action_done: "'{0}' {1}完成",
        action_failed: "{0} '{1}' 失败（退出码 {2}）{3}",
        action_failed_short: "{0}失败：{1}",
        nothing_to_do: "无可执行操作",
        attach_failed: "连接失败：{0}",
        attach_exit_code: "连接失败：screen 退出码 {0}",
        detached_from: "已从 '{0}' 断开（detached）",
        screen_exit_code: "screen 退出码 {0}（{1}）",
        renamed_to: "会话已重命名为 '{0}'",
        rename_failed: "重命名失败（退出码 {0}）：{1}",
        rename_failed_short: "重命名失败：{0}",
        meta_alias: "别名",
        meta_note: "备注",
        meta_updated: "'{0}' 的{1}已更新",
        meta_kept_ro: "'{0}' 的{1}仅本会话生效（未写配置文件）",
        no_stale_metadata: "没有可清理的过期元数据",
        stale_entries: "{0} 条过期元数据",
        removed_stale: "已删除 {0} 条过期元数据",
        removed_stale_ro: "已删除 {0} 条过期元数据（仅本会话生效，未写配置文件）",
        restart_still_running: "'{0}' 仍在运行；重启只适用于 dead 会话",
        restart_not_managed: "'{0}' 非 stui 创建；不可重启",
        restart_unmanaged: "'{0}' 非托管会话；重启仅适用于 stui 创建的会话",
        restart_no_record: "'{0}' 没有记录命令/目录；无法重启",
        restarted: "已用记录的命令重启 '{0}'",
        restart_failed: "'{0}' 重启失败（退出码 {1}）：{2}",
        restart_failed_short: "重启失败：{0}",
        preview_not_running: "'{0}' 未在运行；没有可预览的内容",
        preview_unavailable: "预览不可用：此 screen 版本的 hardcopy 支持为 {0}（详情运行 `stui doctor`）",
        detach_hint_some: "提示：按 {0} d 断开",
        detach_hint_default: "提示：按 Ctrl-A D 断开（默认前缀 —— 若你改过前缀，请用你的前缀 + d）",
        refresh_failed: "刷新失败：{0}",
        header_self: "  ·  ● 当前在 screen: {0}",
        inside_sty: "正运行在 screen 会话内；连接会造成嵌套",
        attach_self: "你正在 '{0}' 会话内；screen 拒绝从自身内部连接",
        desc_self_marker: "标记你所在的会话",
        list_empty: "没有 screen 会话。按 n 新建。",
        list_filter_empty: "没有会话匹配 '/{0}'。按 Esc 清除过滤。",
        header_sessions: "  {0} 个会话 · {1} 个已连接",
        header_dead: " · {0} 个 dead",
        footer_wide_1: " j/k 移动  Enter 连接  1-9 快选  n 新建  x 共享  i 详情  R 刷新",
        footer_wide_2: " / 过滤  D 断开  K 终止  r 重命名  W 清理(dead)  s 重启  X 清档  ? 帮助  q 退出",
        footer_wipe_dead: "  W 清理 dead",
        footer_mid: " n 新建  1-9 连接  i 详情  / 查找  K 终止  ? 帮助  q 退出",
        footer_wipe: "  W 清理",
        footer_tiny: " ? 帮助  q 退出",
        footer_refresh: " 每 {0}s 刷新",
        footer_manual: " 手动刷新（R）",
        error_title: " 错误 ",
        error_hint: "Enter / Esc 关闭",
        help_title: " 帮助 ",
        desc_move: " 移动选择",
        desc_attach: "     进入会话（stui 被 screen 替换，退出后回原 shell）",
        desc_quick: "        按行号快速连接",
        desc_share: "        共享连接（-x）",
        desc_preview: "        预览快照",
        desc_new: "        新建会话",
        desc_detail: "        选中会话详情",
        desc_filter: "        过滤会话",
        desc_detach: "        远程断开",
        desc_kill: "        终止（需确认）",
        desc_rename: "        重命名",
        desc_wipe: "        清理 dead（需确认）",
        desc_refresh: "        立即刷新",
        desc_quit: "  退出 / 关闭",
        version_unknown: "版本未知",
        detail_title: " 详情 ",
        detail_nothing: " 未选中会话",
        detail_hint: " a 别名 · t 备注 · Esc 关闭",
        dl_name: "名字",
        dl_address: "地址",
        dl_pid: "PID",
        dl_status: "状态",
        dl_created: "创建时间",
        dl_windows: "窗口",
        dl_cwd: "目录",
        dl_command: "命令",
        dl_alias: "别名",
        dl_note: "备注",
        dl_managed: "托管",
        dl_managed_yes: "是（stui 创建；按 s 重启）",
        meta_title: " 元数据 ",
        meta_line: " '{1}' 的{0}：",
        meta_hint: " Enter 保存 · 留空清除 · Esc 取消",
        rename_title: " 重命名 ",
        rename_new_name: " 新名字：",
        rename_hint: " Enter 重命名 · Esc 取消",
        confirm_title: " 确认：{0}",
        confirm_session: " 会话：{0}",
        confirm_command: " 命令：{0}",
        confirm_yes: " [ 是 ] ",
        confirm_cancel: " [ 取消 ] ",
        confirm_hint: " ←/→ 切换焦点 · Enter 执行焦点项 · y 确认 · Esc 取消",
        filter_title: " 过滤 ",
        filter_match: " {0}/{1} 个会话匹配",
        filter_hint: " Enter 应用 · Esc 清除过滤",
        attach_title: " 连接 ",
        attach_line: " '{0}' 正被其他终端连接：",
        attach_share: "共享连接（-x）",
        attach_takeover: "断开对方并接管（-d -r）",
        attach_hint: " 1 共享 · 2 接管 · Esc 取消",
        preview_pane_hint: " 按 p 抓取选中会话的快照",
        preview_title: " 预览 ",
        preview_overlay_title: " 预览 - {0} · 抓取于 {1} ",
        preview_fetched: " 抓取于 {0} · 会话 {1}",
        preview_empty: " （空窗口）",
        new_title: " 新建会话 ",
        new_hint: " Tab/↓ 下一项 · ↑ 上一项 · Enter 创建 · Esc 取消",
        new_recent: " 最近目录（1-9）：",
    }
}

} // verus!

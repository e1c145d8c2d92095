//! The fixed parts of the dashboard's page.

use vstd::prelude::*;

verus! {

/// The page up to the list of teams.
pub const PAGE_HEAD: &'static str = r#"<!doctype html><html><head><meta charset="utf-8"><title>Codex Teams</title>
<style>
body{margin:0;font:14px system-ui,sans-serif;background:#f6f7f9;color:#1b1f24}
.app{display:grid;grid-template-columns:320px 1fr;min-height:100vh}
aside{background:#fff;border-right:1px solid #d8dee4;padding:16px;overflow:auto}
main{padding:20px;overflow:auto}
.team-wrap{position:relative}
.team{display:block;padding:10px;border-radius:6px;color:inherit;text-decoration:none;border:1px solid transparent;margin-bottom:8px}
.team.active{background:#eaf2ff;border-color:#8bb8ff}
.team span,.team small{display:block;color:#59636e;white-space:nowrap;overflow:hidden;text-overflow:ellipsis}
.run-state{display:inline-block;margin-top:7px;padding:1px 7px;border:1px solid #d8dee4;border-radius:999px;font-size:12px;font-style:normal;color:#59636e;background:#f6f8fa}
.run-running{color:#116329;background:#dafbe1;border-color:#4ac26b}
.run-waiting{color:#4d3d00;background:#fff4b8;border-color:#d4a72c}
.run-stop{color:#7d4e00;background:#fff8c5;border-color:#d4a72c}
.run-stopped{color:#82071e;background:#ffebe9;border-color:#ff8182}
.run-unknown{color:#59636e;background:#f6f8fa}
.context-menu{display:none;position:fixed;z-index:100;background:#fff;border:1px solid #d8dee4;border-radius:6px;box-shadow:0 8px 24px rgba(27,31,36,.16);padding:6px}
.context-menu.open{display:block}
.context-menu form{margin:0;padding:0;border:0;background:transparent}
.context-menu button{width:170px;text-align:left;background:transparent;border:0;border-radius:4px;padding:8px 10px;color:#82071e}
.context-menu button:hover{background:#ffebe9}
form{display:grid;gap:10px;margin:12px 0;padding:12px;background:#fff;border:1px solid #d8dee4;border-radius:6px}
label{display:grid;gap:4px} input,textarea{font:inherit;padding:8px;border:1px solid #c9d1d9;border-radius:4px} button{width:max-content;padding:8px 12px}
.runtime-card{display:flex;align-items:center;gap:10px;flex-wrap:wrap;background:#fff;border:1px solid #d8dee4;border-radius:6px;padding:10px;margin:12px 0}
.runtime-card .hint{flex-basis:100%;margin:0;color:#59636e}
.inline-form{display:inline-grid;margin:0;padding:0;border:0;background:transparent}
.dir-picker{background:#fff;border:1px solid #d8dee4;border-radius:6px;padding:10px;margin:10px 0;max-height:260px;overflow:auto}
.dir-picker a{display:block;padding:5px 0;color:#0969da;text-decoration:none;white-space:nowrap;overflow:hidden;text-overflow:ellipsis}
.dir-current{font-weight:600;word-break:break-all}
table{width:100%;border-collapse:collapse;background:#fff} th,td{padding:8px;border:1px solid #d8dee4;text-align:left;vertical-align:top}
pre{background:#111827;color:#d1d5db;padding:12px;border-radius:6px;overflow:auto;max-height:360px}
.kanban-shell{margin:16px 0 20px}
.kanban-topbar{display:flex;justify-content:space-between;align-items:center;gap:16px;margin:4px 0 12px}
.kanban-topbar h3{margin:0;font-size:24px}
.kanban-topbar p,.board-title p,.panel-title p{margin:4px 0 0;color:#59636e}
.kanban-actions{display:flex;align-items:center;gap:8px;flex-wrap:wrap}
.kanban-actions button,.primary-action,.board-back{border:1px solid #d8dee4;border-radius:6px;background:#fff;color:#24292f;padding:8px 12px;text-decoration:none}
.primary-action{background:#2563eb;color:#fff;border-color:#2563eb}
.kbd{display:inline-block;padding:4px 8px;background:#f6f8fa;border:1px solid #d8dee4;border-radius:6px;color:#59636e}
.kanban-board{background:#fff;border:1px solid #d8dee4;border-radius:8px;padding:16px;margin:12px 0;overflow:auto}
.board-title{display:flex;justify-content:space-between;align-items:start;gap:12px;margin-bottom:14px}
.board-title h4{font-size:20px;margin:0}
.kanban-grid{display:grid;grid-template-columns:repeat(4,minmax(240px,1fr));gap:12px;min-width:980px}
.kanban-col{display:grid;grid-template-rows:auto 1fr auto;gap:10px;border:1px solid #d8dee4;border-radius:8px;background:#fbfcfe;padding:12px;min-height:360px}
.kanban-col.jobs{min-height:280px}
.kanban-col-head{display:flex;justify-content:space-between;gap:10px}
.kanban-col-head strong{font-size:16px}
.kanban-col-head span{display:block;margin-top:4px;color:#59636e;font-size:12px}
.kanban-col-head em{font-style:normal;background:#eef2f7;border-radius:8px;padding:4px 9px;align-self:start}
.kanban-cards{display:grid;align-content:start;gap:10px}
.kanban-card{display:grid;gap:8px;background:#fff;border:1px solid #d8dee4;border-radius:8px;padding:12px;color:#24292f;text-decoration:none;min-height:118px;box-shadow:0 1px 2px rgba(27,31,36,.04)}
.kanban-card.selected{outline:2px solid #2563eb;outline-offset:1px}
.kanban-card strong{font-size:15px;line-height:1.35}
.card-line{display:flex;justify-content:space-between;gap:8px;align-items:center;color:#59636e}
.assignee{display:grid;grid-template-columns:auto auto 1fr;align-items:center;gap:7px;color:#59636e;font-size:13px}
.assignee small{overflow:hidden;text-overflow:ellipsis;white-space:nowrap}
.avatar{display:inline-grid;place-items:center;width:24px;height:24px;border-radius:50%;background:#dbeafe;color:#0f3d85;font-weight:700;font-size:12px}
.status-badge{display:inline-block;border-radius:7px;padding:3px 8px;font-size:11px;font-weight:700;text-transform:uppercase;white-space:nowrap}
.status-badge.todo{background:#eaf2ff;color:#0969da}
.status-badge.active{background:#dafbe1;color:#116329}
.status-badge.review{background:#fff1d6;color:#9a6700}
.status-badge.blocked{background:#ffebe9;color:#a40e26}
.status-badge.completed{background:#dafbe1;color:#1a7f37}
.status-badge.muted{background:#f6f8fa;color:#57606a}
.kanban-note{margin:0;color:#59636e;font-size:12px;line-height:1.35}
.kanban-empty{margin:8px 0;color:#8c959f;font-size:12px}
.kanban-add{align-self:end;color:#0969da;text-decoration:none;font-weight:600}
.task-hero{display:grid;grid-template-columns:auto 1fr minmax(180px,260px);gap:18px;align-items:center;border:1px solid #d8dee4;border-radius:8px;padding:14px;margin-bottom:14px;background:#fff}
.task-square{display:grid;place-items:center;width:72px;height:72px;border-radius:8px;background:#dcfce7;color:#047857;font-weight:800;font-size:18px}
.task-hero h4{margin:7px 0 4px;font-size:18px}
.task-hero p{margin:0;color:#59636e}
.hero-owner{display:grid;gap:6px;border-left:1px solid #d8dee4;padding-left:16px}
.hero-owner span,.hero-owner small{color:#59636e}
.hero-owner strong{display:flex;align-items:center;gap:8px}
.member-board{display:grid;grid-template-columns:minmax(300px,.85fr) minmax(320px,1fr) minmax(360px,1.25fr);gap:14px;margin:12px 0}
.member-panel{background:#fff;border:1px solid #d8dee4;border-radius:8px;padding:16px;overflow:auto}
.panel-title{display:grid;gap:4px;margin-bottom:12px}
.panel-title h4{margin:0;font-size:18px}
.member-tabs{display:flex;gap:8px;flex-wrap:wrap;margin-top:8px}
.member-tab{border:1px solid #d8dee4;border-radius:6px;padding:6px 10px;background:#fff}
.member-tab.active{border-color:#2563eb;background:#eff6ff;color:#1d4ed8}
.journal-panel details{border-top:1px solid #d8dee4;padding:8px 0}
.journal-panel summary{cursor:pointer;font-weight:700;color:#24292f}
.journal-summary{display:flex;gap:8px;flex-wrap:wrap;align-items:center;margin:8px 0}
.journal-summary span:not(.status-badge){border:1px solid #d8dee4;border-radius:6px;padding:3px 7px;background:#f6f8fa;color:#57606a;font-size:12px}
.journal-list{margin:8px 0 0;padding-left:18px;display:grid;gap:5px}
.journal-list li{line-height:1.35}
.journal-panel pre{white-space:pre-wrap;max-height:220px;overflow:auto;background:#f6f8fa;border:1px solid #d8dee4;border-radius:6px;padding:10px}
tr.selected{background:#f6f8ff}
@media (max-width: 1100px){.kanban-grid{grid-template-columns:repeat(2,minmax(240px,1fr));min-width:0}.member-board{grid-template-columns:1fr}.task-hero{grid-template-columns:1fr}.hero-owner{border-left:0;padding-left:0;border-top:1px solid #d8dee4;padding-top:12px}}
.usage-panel{margin:14px 0}
.usage-summary{display:grid;grid-template-columns:repeat(auto-fit,minmax(130px,1fr));gap:8px;margin:8px 0 12px}
.usage-summary div{background:#fff;border:1px solid #d8dee4;border-radius:6px;padding:10px}
.usage-summary strong{display:block;font-size:20px;line-height:1.2}
.usage-summary span{display:block;color:#59636e;font-size:12px;margin-top:3px}
.usage-grid{display:grid;grid-template-columns:repeat(auto-fit,minmax(280px,1fr));gap:10px}
.usage-grid details,.usage-panel details{background:#fff;border:1px solid #d8dee4;border-radius:6px;padding:10px;margin:8px 0}
.usage-panel summary{cursor:pointer;font-weight:600}
.usage-share{min-width:120px;position:relative;height:18px;background:#eef2f7;border-radius:4px;overflow:hidden}
.usage-share span{position:absolute;inset:0 auto 0 0;background:#9ec5fe}
.usage-share em{position:relative;z-index:1;display:block;text-align:right;padding-right:5px;font-style:normal;font-size:12px;line-height:18px;color:#24292f}
.usage-context{display:inline-block;border:1px solid #d8dee4;border-radius:999px;padding:1px 7px;background:#f6f8fa;color:#39424e;font-size:12px}
.usage-context.warn{background:#fff8c5;border-color:#d4a72c;color:#7d4e00}
.usage-context.hot{background:#ffebe9;border-color:#ff8182;color:#82071e}
.usage-context.ok{background:#dafbe1;border-color:#4ac26b;color:#116329}
.messages{display:grid;gap:8px;max-height:520px;overflow:auto}
.msg{background:#fff;border:1px solid #d8dee4;border-radius:6px;padding:10px}
.lead-chat .msg{border-left:4px solid #8c959f}
.lead-chat .chat-user{border-left-color:#0969da}
.lead-chat .chat-lead{border-left-color:#1a7f37}
.msg-meta{display:flex;gap:8px;flex-wrap:wrap;color:#59636e;font-size:12px;margin-bottom:4px}
.pill{display:inline-block;background:#eef2f7;border:1px solid #d8dee4;border-radius:999px;padding:1px 7px;color:#39424e}
.pill.warn{background:#fff8c5;border-color:#d4a72c;color:#7d4e00}
.hint{margin:8px 0;color:#59636e;font-size:12px;line-height:1.4}
.translate-form{display:flex;align-items:end;gap:10px;flex-wrap:wrap}
.translate-form label{display:grid;gap:4px}
.translation{margin:10px 0}
.threads{display:grid;gap:10px}
details{background:#fff;border:1px solid #d8dee4;border-radius:6px;padding:10px}
summary{cursor:pointer;font-weight:600}
code{font:12px ui-monospace,SFMono-Regular,Menlo,monospace;word-break:break-all}
.rt-card{background:#0f172a;color:#dbeafe;border:1px solid #1e293b;border-radius:8px;margin:16px 0;overflow:hidden;box-shadow:0 12px 34px rgba(15,23,42,.14)}
.rt-head{display:flex;align-items:center;justify-content:space-between;gap:12px;padding:12px 14px;background:#111827;border-bottom:1px solid #263244}
.rt-title{display:flex;align-items:center;gap:9px;font-weight:700}
.rt-dot{width:9px;height:9px;border-radius:50%;background:#22c55e;box-shadow:0 0 0 4px rgba(34,197,94,.16)}
.rt-actions{display:flex;gap:8px;flex-wrap:wrap}
.rt-actions button{background:#1f2937;color:#dbeafe;border:1px solid #334155;border-radius:6px;padding:7px 10px}
.rt-actions button:hover{background:#334155}
.rt-help{padding:9px 14px;color:#93a4ba;background:#0b1220;border-bottom:1px solid #1e293b;font-size:12px}
.rt-grid{display:none;gap:8px;padding:10px;min-height:440px;background:#020617}
.rt-card.open .rt-grid{display:grid}
.rt-grid.cols{grid-template-columns:repeat(var(--rt-cols,1),minmax(280px,1fr));grid-auto-rows:minmax(360px,1fr)}
.rt-grid.rows{grid-template-columns:1fr;grid-auto-rows:minmax(260px,1fr)}
.rt-pane{display:grid;grid-template-rows:auto 1fr;background:#050b18;border:1px solid #1e293b;border-radius:7px;min-height:260px;overflow:hidden}
.rt-panebar{display:flex;align-items:center;gap:8px;padding:8px;background:#0f172a;border-bottom:1px solid #1e293b}
.rt-panebar select{min-width:150px;background:#020617;color:#e5e7eb;border:1px solid #334155;border-radius:5px;padding:5px}
.rt-panebar .rt-meta{font-size:12px;color:#94a3b8;overflow:hidden;text-overflow:ellipsis;white-space:nowrap}
.rt-panebar button{margin-left:auto;background:#111827;color:#cbd5e1;border:1px solid #334155;border-radius:5px;padding:4px 7px}
.rt-term{margin:0;border-radius:0;background:#020617;color:#d1fae5;max-height:none;height:100%;font:12px ui-monospace,SFMono-Regular,Menlo,Consolas,monospace;line-height:1.45;white-space:pre-wrap}
.rt-status{padding:7px 12px;color:#94a3b8;background:#0b1220;border-top:1px solid #1e293b;font-size:12px}
.af-card{background:#fff;border:1px solid #d8dee4;border-radius:10px;margin:16px 0;overflow:hidden;box-shadow:0 12px 32px rgba(27,31,36,.08)}
.af-head{display:flex;align-items:center;justify-content:space-between;gap:12px;padding:14px 16px;border-bottom:1px solid #d8dee4;background:#fbfcfe}
.af-title{display:flex;align-items:center;gap:10px;font-weight:800;font-size:16px}
.af-mark{display:inline-grid;place-items:center;width:28px;height:28px;border-radius:8px;background:#eaf2ff;color:#0969da}
.af-actions{display:flex;gap:8px;align-items:center;flex-wrap:wrap}
.af-actions input,.af-actions select{padding:7px 9px;border:1px solid #c9d1d9;border-radius:6px;background:#fff}
.af-actions button{border:1px solid #c9d1d9;border-radius:6px;background:#fff;color:#24292f;padding:7px 10px}
.af-layout{display:grid;grid-template-columns:220px 1fr 260px;min-height:520px}
.af-side{border-right:1px solid #d8dee4;background:#f6f8fa;padding:14px;display:grid;align-content:start;gap:12px}
.af-side h4,.af-detail h4{margin:0;font-size:14px}
.af-filter{display:grid;gap:7px}
.af-filter label{display:flex;gap:8px;align-items:center;color:#39424e}
.af-flow-wrap{position:relative;overflow:auto;background:linear-gradient(#fff,#fff),linear-gradient(90deg,rgba(99,102,241,.06),rgba(20,184,166,.05));background-blend-mode:normal;padding:14px}
.af-toolbar{display:flex;justify-content:space-between;align-items:center;gap:10px;margin-bottom:12px;color:#59636e;font-size:12px}
.af-stage{display:grid;gap:0;min-width:860px;position:relative}
.af-row{display:grid;position:relative;min-height:68px;border-bottom:1px solid #eef2f7}
.af-row.header{position:sticky;top:0;z-index:4;background:rgba(255,255,255,.96);border-bottom:1px solid #d8dee4;min-height:54px}
.af-time{padding:12px 10px;color:#59636e;font:12px ui-monospace,SFMono-Regular,Menlo,monospace;border-right:1px dashed #d8dee4}
.af-lane-head{display:grid;place-items:center;padding:9px 8px;border-left:1px dashed rgba(37,99,235,.22)}
.af-lane-pill{display:flex;align-items:center;gap:7px;max-width:160px;border:1px solid #c7d2fe;border-radius:7px;background:#eef2ff;color:#3730a3;padding:7px 10px;font-weight:700;white-space:nowrap;overflow:hidden;text-overflow:ellipsis}
.af-lane-dot{width:8px;height:8px;border-radius:50%;background:#6366f1;flex:0 0 auto}
.af-cell{border-left:1px dashed rgba(37,99,235,.16)}
.af-link{align-self:center;height:0;border-top:2px solid #8c959f;margin:0 22px;z-index:1;position:relative}
.af-link::after{content:"";position:absolute;right:-1px;top:-5px;border-left:7px solid #8c959f;border-top:4px solid transparent;border-bottom:4px solid transparent}
.af-link.reverse::after{left:-1px;right:auto;border-left:0;border-right:7px solid #8c959f}
.af-chip{align-self:center;justify-self:center;max-width:170px;border:1px solid #d8dee4;border-radius:8px;background:#fff;padding:7px 9px;z-index:2;box-shadow:0 2px 8px rgba(27,31,36,.08);cursor:pointer}
.af-chip strong{display:block;font-size:12px;white-space:nowrap;overflow:hidden;text-overflow:ellipsis}
.af-chip span{display:block;margin-top:3px;color:#59636e;font-size:11px;white-space:nowrap;overflow:hidden;text-overflow:ellipsis}
.af-chip.message{border-color:#bfdbfe;background:#eff6ff}
.af-chip.system{border-color:#ddd6fe;background:#f5f3ff}
.af-chip.event{border-color:#fde68a;background:#fffbeb}
.af-chip.side{border-color:#fecaca;background:#fff1f2}
.af-chip.live{border-color:#bbf7d0;background:#f0fdf4}
.af-chip.last{border-color:#e5e7eb;background:#f9fafb}
.af-chip.selected{outline:3px solid #2563eb;outline-offset:2px}
.af-self{align-self:center;justify-self:center;width:54px;height:22px;border:2px solid #8c959f;border-left:0;border-radius:0 14px 14px 0;z-index:1}
.af-detail{border-left:1px solid #d8dee4;background:#fff;padding:14px;display:grid;align-content:start;gap:12px}
.af-detail dl{display:grid;grid-template-columns:70px 1fr;gap:8px;margin:0}
.af-detail dt{color:#59636e}
.af-detail dd{margin:0;word-break:break-word}
.af-preview{white-space:pre-wrap;background:#f6f8fa;border:1px solid #d8dee4;border-radius:6px;padding:10px;max-height:260px;overflow:auto;font:12px ui-monospace,SFMono-Regular,Menlo,monospace}
.af-status{padding:8px 14px;color:#59636e;border-top:1px solid #d8dee4;font-size:12px}
@media (max-width: 1200px){.af-layout{grid-template-columns:1fr}.af-side,.af-detail{border:0;border-top:1px solid #d8dee4}}
.dbg-card{background:#fff;border:1px solid #d8dee4;border-radius:8px;margin:16px 0;overflow:hidden}
.dbg-head{display:flex;align-items:center;justify-content:space-between;gap:12px;padding:12px 14px;border-bottom:1px solid #d8dee4;background:#f6f8fa}
.dbg-title{font-weight:700}
.dbg-actions{display:flex;gap:8px;flex-wrap:wrap;align-items:center}
.dbg-actions button{border:1px solid #c9d1d9;border-radius:6px;background:#fff;color:#24292f;padding:6px 9px}
.dbg-actions button.active{background:#0969da;border-color:#0969da;color:#fff}
.dbg-actions input{padding:6px 8px;min-width:240px}
.dbg-list{display:grid;gap:8px;padding:10px;max-height:680px;overflow:auto;background:#f6f8fa}
.dbg-item{background:#fff;border:1px solid #d8dee4;border-left:4px solid #8c959f;border-radius:6px;padding:9px}
.dbg-message{border-left-color:#0969da}
.dbg-system{border-left-color:#8250df}
.dbg-event{border-left-color:#bf8700}
.dbg-side{border-left-color:#cf222e}
.dbg-live{border-left-color:#1a7f37}
.dbg-last{border-left-color:#57606a}
.dbg-meta{display:flex;gap:6px;flex-wrap:wrap;color:#59636e;font-size:12px;margin-bottom:5px}
.dbg-body{white-space:pre-wrap;margin-top:7px;color:#24292f;font:12px ui-monospace,SFMono-Regular,Menlo,Consolas,monospace;max-height:260px;overflow:auto;background:#f6f8fa;border-radius:5px;padding:8px}
.dbg-json{white-space:pre-wrap;margin-top:7px;color:#57606a;font:12px ui-monospace,SFMono-Regular,Menlo,Consolas,monospace}
.dbg-status{padding:8px 12px;color:#59636e;border-top:1px solid #d8dee4;font-size:12px}
</style></head><body><div class="app"><aside><h1>Lead Sessions</h1>"#;

/// What stands between the list of teams and the refresh link.
pub const PAGE_REFRESH: &'static str = r#"
<p><a href=""#;

/// What stands between the refresh link and the current directory of a new team.
pub const PAGE_FORM: &'static str = r#"">Refresh</a></p>
<h2>New Team</h2><form method="post" action="/new">
<label>Team ID <input name="id" placeholder="optional-id"></label>
<label>Goal <textarea name="goal" rows="5"></textarea></label>
<input type="hidden" name="cwd" value=""#;

/// What stands between the current directory and the directory picker.
pub const PAGE_DIRECTORY: &'static str = r#"">
<div><strong>Current Directory</strong>"#;

/// What stands between the directory picker and the address of the app server.
pub const PAGE_SERVER: &'static str = r#"</div>
<label>Existing App Server URL <input name="app_server_url" value=""#;

/// What stands between the address of the app server and the log of started runs.
pub const PAGE_OPTIONS: &'static str = r#"" placeholder="ws://127.0.0.1:12345"></label>
<details><summary>Advanced Placement (optional override)</summary>
<p class="hint">Normally leave this closed. Lead should infer departments, SSH nodes, Docker containers, rebuilds, and placement from the natural-language goal.</p>
<label>Members <textarea name="members" rows="3" placeholder="verifier:ops@qwenbox"></textarea></label>
<label>Nodes <textarea name="nodes" rows="3" placeholder="qwenbox@ssh-docker=saitou:codex-qwen35-session"></textarea></label>
<label>Discuss rounds <input name="discuss_rounds" value="0"></label>
<label class="check"><input type="checkbox" name="no_keep_alive"> Stop when complete</label>
<input type="hidden" name="dangerously_bypass_present" value="1">
<label class="check"><input type="checkbox" name="dangerously_bypass" checked> Bypass sandbox/approvals</label>
</details>
<button type="submit">Start</button></form>"#;

/// What stands between the log of started runs and the detail of the team.
pub const PAGE_MAIN: &'static str = r#"</aside><main>"#;

/// The page from the detail of the team on.
pub const PAGE_TAIL: &'static str = r#"</main></div>
<div id="team-context-menu" class="context-menu">
<form method="post" action="/delete" onsubmit="return confirm('Delete this team? Running UI-launched team processes will be stopped first.');">
<input type="hidden" name="team" id="delete-team-id">
<button type="submit">Delete Team</button>
</form>
</div>
<script>
const teamMenu = document.getElementById('team-context-menu');
const deleteTeamInput = document.getElementById('delete-team-id');
document.querySelectorAll('.team-wrap').forEach((item) => {
  item.addEventListener('contextmenu', (event) => {
    event.preventDefault();
    deleteTeamInput.value = item.dataset.team || '';
    teamMenu.style.left = `${event.clientX}px`;
    teamMenu.style.top = `${event.clientY}px`;
    teamMenu.classList.add('open');
  });
});
document.addEventListener('click', () => teamMenu.classList.remove('open'));
document.addEventListener('keydown', (event) => {
  if (event.key === 'Escape') {
    teamMenu.classList.remove('open');
  }
});
const rtRoot = document.querySelector('[data-realtime-team]');
if (rtRoot) {
  const teamId = rtRoot.dataset.realtimeTeam;
  const card = rtRoot;
  const grid = card.querySelector('.rt-grid');
  const status = card.querySelector('.rt-status');
  let snapshot = null;
  let timer = null;
  let panes = [{ member: 'lead' }];
  let layout = 'cols';
  function rtSetStatus(text) { status.textContent = text; }
  function rtMembers() { return snapshot?.members || []; }
  function rtMember(name) { return rtMembers().find((m) => m.name === name) || rtMembers()[0]; }
  function rtRenderPane(pane, idx) {
    const members = rtMembers();
    const selected = pane.member && members.some((m) => m.name === pane.member) ? pane.member : (members[0]?.name || 'lead');
    pane.member = selected;
    const options = members.map((m) => `<option value="${rtEscAttr(m.name)}" ${m.name===selected?'selected':''}>${rtEsc(m.name)} · session ${rtEsc(m.status)} · tasks ${rtEsc(m.task_status)} · unread ${m.unread}/${m.direct_unread} · ${rtEsc(m.node)}</option>`).join('');
    const m = rtMember(selected);
    const header = m ? `${m.role} / ${m.location} / tasks ${m.task_status || '-'} / unread ${m.unread}/${m.direct_unread} / cooldown ${m.cooldown || '-'} / thread ${m.thread || '-'}` : 'waiting for stream';
    const text = m ? rtTerminalText(m) : 'No member stream yet.';
    return `<div class="rt-pane" data-pane="${idx}">
      <div class="rt-panebar"><select data-idx="${idx}">${options}</select><span class="rt-meta">${rtEsc(header)}</span><button type="button" data-close="${idx}" title="Close pane">x</button></div>
      <pre class="rt-term">${rtEsc(text)}</pre>
    </div>`;
  }
  function rtTerminalText(m) {
    const parts = [];
    parts.push(`$ member=${m.name} role=${m.role} session=${m.status} tasks=${m.task_status} node=${m.node} unread=${m.unread} direct=${m.direct_unread} cooldown=${m.cooldown || '-'}`);
    if (m.live && m.live.trim()) parts.push(`\\n# live stream\\n${m.live}`);
    else parts.push('\\n# live stream\\n(no active live stream yet)');
    if (m.last && m.last.trim()) parts.push(`\\n# last completed assistant message\\n${m.last}`);
    if (m.inbox_tail && m.inbox_tail.trim()) parts.push(`\\n# inbox tail\\n${m.inbox_tail}`);
    return parts.join('\\n');
  }
  function rtRender() {
    if (!grid) return;
    if (!panes.length) panes = [{ member: rtMembers()[0]?.name || 'lead' }];
    grid.classList.toggle('cols', layout === 'cols');
    grid.classList.toggle('rows', layout === 'rows');
    grid.style.setProperty('--rt-cols', Math.max(1, panes.length));
    grid.innerHTML = panes.map(rtRenderPane).join('');
    grid.querySelectorAll('select[data-idx]').forEach((select) => {
      select.addEventListener('change', () => {
        panes[Number(select.dataset.idx)].member = select.value;
        rtRender();
      });
    });
    grid.querySelectorAll('button[data-close]').forEach((button) => {
      button.addEventListener('click', () => {
        if (panes.length > 1) panes.splice(Number(button.dataset.close), 1);
        rtRender();
      });
    });
    grid.querySelectorAll('.rt-term').forEach((term) => { term.scrollTop = term.scrollHeight; });
    if (snapshot) rtSetStatus(`updated ${snapshot.generated_at} · ${snapshot.members.length} members · ${snapshot.events.length} recent events`);
  }
  async function rtPoll() {
    try {
      const res = await fetch(`/realtime?team=${encodeURIComponent(teamId)}`, { cache: 'no-store' });
      if (!res.ok) throw new Error(`${res.status} ${res.statusText}`);
      snapshot = await res.json();
      rtRender();
    } catch (err) {
      rtSetStatus(`realtime error: ${err.message || err}`);
    }
  }
  function rtStart() {
    card.classList.add('open');
    if (!timer) {
      rtPoll();
      timer = setInterval(rtPoll, 1500);
    }
  }
  function rtStop() {
    card.classList.remove('open');
    if (timer) clearInterval(timer);
    timer = null;
  }
  function rtEsc(value) {
    return String(value ?? '').replace(/[&<>"']/g, (ch) => ({'&':'&amp;','<':'&lt;','>':'&gt;','"':'&quot;',"'":'&#39;'}[ch]));
  }
  function rtEscAttr(value) { return rtEsc(value); }
  card.querySelector('[data-rt-toggle]').addEventListener('click', () => card.classList.contains('open') ? rtStop() : rtStart());
  card.querySelector('[data-rt-add-h]').addEventListener('click', () => { layout='cols'; panes.push({ member: rtMembers()[panes.length % Math.max(1, rtMembers().length)]?.name || 'lead' }); rtStart(); rtRender(); });
  card.querySelector('[data-rt-add-v]').addEventListener('click', () => { layout='rows'; panes.push({ member: rtMembers()[panes.length % Math.max(1, rtMembers().length)]?.name || 'lead' }); rtStart(); rtRender(); });
  card.querySelector('[data-rt-refresh]').addEventListener('click', () => { rtStart(); rtPoll(); });
}
const afRoot = document.querySelector('[data-agent-flow-team]');
if (afRoot) {
  const teamId = afRoot.dataset.agentFlowTeam;
  const stage = afRoot.querySelector('.af-stage');
  const status = afRoot.querySelector('.af-status');
  const summary = afRoot.querySelector('[data-af-summary]');
  const search = afRoot.querySelector('[data-af-search]');
  const windowSelect = afRoot.querySelector('[data-af-window]');
  const autoscrollButton = afRoot.querySelector('[data-af-autoscroll]');
  const kindChecks = Array.from(afRoot.querySelectorAll('[data-af-kind]'));
  let snapshot = null;
  let selectedId = null;
  let autoscroll = true;
  function afEsc(value) {
    return String(value ?? '').replace(/[&<>"']/g, (ch) => ({'&':'&amp;','<':'&lt;','>':'&gt;','"':'&quot;',"'":'&#39;'}[ch]));
  }
  function afSplitTargets(value) {
    return String(value || '').split(',').map((part) => part.trim()).filter(Boolean);
  }
  function afActor(item) {
    const actor = String(item.actor || '').trim();
    if (actor) return actor;
    if (item.kind === 'system') return 'system';
    if (item.kind === 'event') return 'system';
    return 'unknown';
  }
  function afPrimaryTarget(item) {
    const targets = afSplitTargets(item.target);
    if (targets.length) return targets[0];
    return afActor(item);
  }
  function afEnabledKinds() {
    return new Set(kindChecks.filter((box) => box.checked).map((box) => box.dataset.afKind));
  }
  function afMatches(item) {
    if (!afEnabledKinds().has(item.kind)) return false;
    const q = (search?.value || '').trim().toLowerCase();
    if (!q) return true;
    return [item.timestamp, item.kind, item.title, item.actor, item.target, item.body, JSON.stringify(item.meta || {})]
      .join('\\n').toLowerCase().includes(q);
  }
  function afLaneOrder(items) {
    const seen = new Set();
    const lanes = [];
    const add = (name) => {
      const clean = String(name || '').trim();
      if (!clean || seen.has(clean)) return;
      seen.add(clean);
      lanes.push(clean);
    };
    ['user', 'system', 'lead'].forEach(add);
    for (const item of items) {
      add(afActor(item));
      afSplitTargets(item.target).forEach(add);
    }
    return lanes.slice(0, 12);
  }
  function afKindLabel(kind) {
    return ({ message: 'message', system: 'system', event: 'event', side: 'side', live: 'live', last: 'last' })[kind] || kind || 'event';
  }
  function afTime(value) {
    const text = String(value || '');
    const match = text.match(/T?(\\d\\d:\\d\\d:\\d\\d)/);
    return match ? match[1] : text.slice(11, 19) || text;
  }
  function afShort(value, limit = 80) {
    const text = String(value || '').replace(/\\s+/g, ' ').trim();
    return text.length > limit ? `${text.slice(0, limit - 1)}…` : text;
  }
  function afRow(item, idx, lanes) {
    const actor = afActor(item);
    const target = afPrimaryTarget(item);
    const actorIdx = Math.max(0, lanes.indexOf(actor));
    const targetIdx = Math.max(0, lanes.indexOf(target));
    const minIdx = Math.min(actorIdx, targetIdx);
    const maxIdx = Math.max(actorIdx, targetIdx);
    const id = item._afId;
    const cells = lanes.map(() => '<div class="af-cell"></div>').join('');
    const link = actorIdx === targetIdx
      ? `<div class="af-self" style="grid-column:${actorIdx + 2}"></div>`
      : `<div class="af-link ${targetIdx < actorIdx ? 'reverse' : ''}" style="grid-column:${minIdx + 2} / ${maxIdx + 3}"></div>`;
    const chip = `<button type="button" class="af-chip ${afEsc(item.kind)} ${selectedId === id ? 'selected' : ''}" data-af-id="${id}" style="grid-column:${actorIdx + 2}">
      <strong>${afEsc(item.title || afKindLabel(item.kind))}</strong>
      <span>${afEsc(afShort(item.body || item.kind, 96))}</span>
    </button>`;
    return `<div class="af-row" style="grid-template-columns:92px repeat(${lanes.length}, minmax(140px, 1fr));">
      <div class="af-time">${afEsc(afTime(item.timestamp))}</div>${cells}${link}${chip}
    </div>`;
  }
  function afSelect(item) {
    selectedId = item?._afId || null;
    afRoot.querySelector('[data-af-detail-kind]').textContent = item ? afKindLabel(item.kind) : '-';
    afRoot.querySelector('[data-af-detail-actor]').textContent = item?.actor || afActor(item || {}) || '-';
    afRoot.querySelector('[data-af-detail-target]').textContent = item?.target || '-';
    afRoot.querySelector('[data-af-detail-time]').textContent = item?.timestamp || '-';
    afRoot.querySelector('[data-af-detail-title]').textContent = item?.title || '-';
    afRoot.querySelector('[data-af-detail-body]').textContent = item?.body || 'Select an event chip to inspect the content.';
    afRender();
  }
  function afRender() {
    if (!snapshot) return;
    const limit = Number(windowSelect?.value || 160);
    const items = (snapshot.items || [])
      .map((item, idx) => Object.assign({ _afId: `${item.timestamp}-${idx}` }, item))
      .filter(afMatches)
      .slice(-limit);
    const lanes = afLaneOrder(items);
    const header = `<div class="af-row header" style="grid-template-columns:92px repeat(${lanes.length}, minmax(140px, 1fr));">
      <div class="af-time">Time</div>
      ${lanes.map((lane, idx) => `<div class="af-lane-head"><span class="af-lane-pill"><i class="af-lane-dot" style="background:hsl(${(idx * 47) % 360} 70% 52%)"></i>${afEsc(lane)}</span></div>`).join('')}
    </div>`;
    stage.innerHTML = header + (items.map((item, idx) => afRow(item, idx, lanes)).join('') || '<p class="hint">No flow events match the current filters.</p>');
    stage.querySelectorAll('[data-af-id]').forEach((button) => {
      button.addEventListener('click', () => {
        const item = items.find((candidate) => candidate._afId === button.dataset.afId);
        afSelect(item);
      });
    });
    if (summary) summary.textContent = `${items.length} events · ${lanes.length} lanes · generated ${snapshot.generated_at}`;
    status.textContent = `updated ${snapshot.generated_at} · filter window=${limit}`;
    if (autoscroll) {
      const wrap = afRoot.querySelector('.af-flow-wrap');
      wrap.scrollTop = wrap.scrollHeight;
    }
  }
  async function afPoll() {
    try {
      const res = await fetch(`/debug?team=${encodeURIComponent(teamId)}`, { cache: 'no-store' });
      if (!res.ok) throw new Error(`${res.status} ${res.statusText}`);
      snapshot = await res.json();
      afRender();
    } catch (err) {
      status.textContent = `agent flow error: ${err.message || err}`;
    }
  }
  kindChecks.forEach((box) => box.addEventListener('change', afRender));
  search?.addEventListener('input', afRender);
  windowSelect?.addEventListener('change', afRender);
  autoscrollButton?.addEventListener('click', () => {
    autoscroll = !autoscroll;
    autoscrollButton.textContent = `Auto-scroll: ${autoscroll ? 'on' : 'off'}`;
  });
  afRoot.querySelector('[data-af-refresh]')?.addEventListener('click', afPoll);
  afPoll();
  setInterval(afPoll, 2500);
}
const dbgRoot = document.querySelector('[data-debug-team]');
if (dbgRoot) {
  const teamId = dbgRoot.dataset.debugTeam;
  const list = dbgRoot.querySelector('.dbg-list');
  const status = dbgRoot.querySelector('.dbg-status');
  const search = dbgRoot.querySelector('[data-dbg-search]');
  const buttons = Array.from(dbgRoot.querySelectorAll('[data-dbg-kind]'));
  let snapshot = null;
  let kind = 'all';
  function dbgEsc(value) {
    return String(value ?? '').replace(/[&<>"']/g, (ch) => ({'&':'&amp;','<':'&lt;','>':'&gt;','"':'&quot;',"'":'&#39;'}[ch]));
  }
  function dbgMatches(item) {
    if (kind !== 'all' && item.kind !== kind) return false;
    const q = (search?.value || '').trim().toLowerCase();
    if (!q) return true;
    return [item.timestamp, item.kind, item.title, item.actor, item.target, item.body, JSON.stringify(item.meta || {})]
      .join('\\n')
      .toLowerCase()
      .includes(q);
  }
  function dbgRender() {
    if (!snapshot) return;
    const items = (snapshot.items || []).filter(dbgMatches).slice(-250).reverse();
    list.innerHTML = items.map((item) => {
      const meta = item.meta ? JSON.stringify(item.meta, null, 2) : '';
      return `<details class="dbg-item dbg-${dbgEsc(item.kind)}" open>
        <summary>${dbgEsc(item.title || item.kind)}</summary>
        <div class="dbg-meta"><span>${dbgEsc(item.timestamp)}</span><span class="pill">${dbgEsc(item.kind)}</span><span class="pill">${dbgEsc(item.actor || '-')} -> ${dbgEsc(item.target || '-')}</span></div>
        <div class="dbg-body">${dbgEsc(item.body || '')}</div>
        <details><summary>raw metadata</summary><div class="dbg-json">${dbgEsc(meta)}</div></details>
      </details>`;
    }).join('') || '<p class="hint">No debug timeline entries match the current filter.</p>';
    status.textContent = `updated ${snapshot.generated_at} · showing ${items.length} / ${snapshot.items.length} entries · filter=${kind}`;
  }
  async function dbgPoll() {
    try {
      const res = await fetch(`/debug?team=${encodeURIComponent(teamId)}`, { cache: 'no-store' });
      if (!res.ok) throw new Error(`${res.status} ${res.statusText}`);
      snapshot = await res.json();
      dbgRender();
    } catch (err) {
      status.textContent = `debug timeline error: ${err.message || err}`;
    }
  }
  buttons.forEach((button) => {
    button.addEventListener('click', () => {
      kind = button.dataset.dbgKind || 'all';
      buttons.forEach((candidate) => candidate.classList.toggle('active', candidate === button));
      dbgRender();
    });
  });
  search?.addEventListener('input', dbgRender);
  dbgRoot.querySelector('[data-dbg-refresh]')?.addEventListener('click', dbgPoll);
  dbgPoll();
  setInterval(dbgPoll, 2500);
}
</script></body></html>"#;

/// The realtime view up to the team.
pub const REALTIME_HEAD: &'static str = r#"<section class="rt-card" data-realtime-team=""#;

/// What stands between the team and the first member of the realtime view.
pub const REALTIME_MEMBER: &'static str = r#"" data-default-member=""#;

/// The realtime view from the first member on.
pub const REALTIME_TAIL: &'static str = r#"">
<div class="rt-head">
  <div class="rt-title"><span class="rt-dot"></span><span>Realtime Team View</span></div>
  <div class="rt-actions">
    <button type="button" data-rt-toggle>Realtime View</button>
    <button type="button" data-rt-add-h>+ Horizontal Split</button>
    <button type="button" data-rt-add-v>+ Vertical Split</button>
    <button type="button" data-rt-refresh>Refresh</button>
  </div>
</div>
<div class="rt-help">Open Realtime View, then use + Horizontal Split for side-by-side panes or + Vertical Split for stacked panes. Each pane has a department selector, so you can watch lead, local departments, SSH departments, and container departments at the same time.</div>
<div class="rt-grid cols"></div>
<div class="rt-status">closed</div>
</section>"#;

/// The debug timeline up to the team.
pub const DEBUG_HEAD: &'static str = r#"<section class="dbg-card" data-debug-team=""#;

/// The debug timeline from the team on.
pub const DEBUG_TAIL: &'static str = r#"">
<div class="dbg-head">
  <div class="dbg-title">Debug Timeline</div>
  <div class="dbg-actions">
    <input type="search" data-dbg-search placeholder="Search messages, events, prompts, paths">
    <button type="button" data-dbg-kind="all" class="active">All</button>
    <button type="button" data-dbg-kind="message">Messages</button>
    <button type="button" data-dbg-kind="system">System</button>
    <button type="button" data-dbg-kind="event">Events</button>
    <button type="button" data-dbg-kind="side">Side-channel</button>
    <button type="button" data-dbg-kind="live">Live</button>
    <button type="button" data-dbg-kind="last">Last</button>
    <button type="button" data-dbg-refresh>Refresh</button>
  </div>
</div>
<div class="hint" style="padding:8px 12px;margin:0">Shows mailbox traffic, system wakeups, runtime events, side-channel replies/context injection, and live/last thread buffers in one timeline.</div>
<div class="dbg-list"><p class="hint">Loading debug timeline...</p></div>
<div class="dbg-status">loading</div>
</section>"#;

/// The agent flow console up to the team.
pub const FLOW_HEAD: &'static str = r#"<section class="af-card" data-agent-flow-team=""#;

/// The agent flow console from the team on.
pub const FLOW_TAIL: &'static str = r#"">
<div class="af-head">
  <div class="af-title"><span class="af-mark">⌁</span><span>Agent Flow Console</span></div>
  <div class="af-actions">
    <input type="search" data-af-search placeholder="Search events, members, messages">
    <select data-af-window>
      <option value="80">Last 80</option>
      <option value="160" selected>Last 160</option>
      <option value="320">Last 320</option>
      <option value="600">Last 600</option>
    </select>
    <button type="button" data-af-autoscroll>Auto-scroll: on</button>
    <button type="button" data-af-refresh>Refresh</button>
  </div>
</div>
<div class="af-layout">
  <aside class="af-side">
    <h4>Event Type</h4>
    <div class="af-filter">
      <label><input type="checkbox" data-af-kind="message" checked> Messages</label>
      <label><input type="checkbox" data-af-kind="system" checked> System wakeups</label>
      <label><input type="checkbox" data-af-kind="event" checked> Runtime events</label>
      <label><input type="checkbox" data-af-kind="side" checked> Side-channel</label>
      <label><input type="checkbox" data-af-kind="live" checked> Live buffers</label>
      <label><input type="checkbox" data-af-kind="last" checked> Last replies</label>
    </div>
    <h4>Reading Guide</h4>
    <p class="hint">Each vertical lane is a member or system actor. Chips are turns, messages, wakeups, side-channel replies, and live/last buffer updates. Arrows show actor to recipient when the event has both.</p>
  </aside>
  <div class="af-flow-wrap">
    <div class="af-toolbar"><span data-af-summary>loading</span><span>Realtime sequence view</span></div>
    <div class="af-stage"><p class="hint">Loading agent flow...</p></div>
  </div>
  <aside class="af-detail">
    <h4>Selected Event</h4>
    <dl>
      <dt>Type</dt><dd data-af-detail-kind>-</dd>
      <dt>From</dt><dd data-af-detail-actor>-</dd>
      <dt>To</dt><dd data-af-detail-target>-</dd>
      <dt>Time</dt><dd data-af-detail-time>-</dd>
      <dt>Title</dt><dd data-af-detail-title>-</dd>
    </dl>
    <div class="af-preview" data-af-detail-body>Select an event chip to inspect the content.</div>
  </aside>
</div>
<div class="af-status">loading</div>
</section>"#;

/// The runtime controls up to the style class of the status.
pub const RUNTIME_HEAD: &'static str = r#"<section class="runtime-card">
<div><strong>Runtime</strong> <span class="run-state "#;

/// What stands between the style class and the name of the status.
pub const RUNTIME_LABEL: &'static str = r#"">"#;

/// What stands between the name of the status and the team of the resume form.
pub const RUNTIME_RESUME: &'static str = r#"</span></div>
<form class="inline-form" method="post" action="/resume">
  <input type="hidden" name="team" value=""#;

/// What stands between the teams of the two forms.
pub const RUNTIME_STOP: &'static str = r#"">
  <button type="submit">Resume Runtime</button>
</form>
<form class="inline-form" method="post" action="/stop" onsubmit="return confirm('Pause this team runtime? Team state is preserved.');">
  <input type="hidden" name="team" value=""#;

/// The runtime controls from the team of the stop form on.
pub const RUNTIME_TAIL: &'static str = r#"">
  <button type="submit">Pause Runtime</button>
</form>
<p class="hint">Resume restarts the keep-alive team runtime from the preserved state. Pause stops local and node runtimes without deleting artifacts.</p>
</section>"#;

} // verus!

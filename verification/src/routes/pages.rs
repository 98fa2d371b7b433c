//! The pages that are served to members, in parts: the base URL of the plugin stands between any
//! two numbered parts.

use vstd::prelude::*;

verus! {

/// A part of the verify page.
pub const VERIFY_PART_1: &'static str = r##"<!DOCTYPE html>
<html>
<head>
    <meta charset="utf-8">
    <meta name="viewport" content="width=device-width, initial-scale=1">
    <title>Steam Player Roles - Link Account</title>
    <link rel="icon" href=""##;

/// A part of the verify page.
pub const VERIFY_PART_2: &'static str = r##"/favicon.ico" type="image/x-icon">
    <meta name="description" content="Link your Discord account with your Steam profile to automatically receive server roles based on your Steam data.">
    <meta property="og:type" content="website">
    <meta property="og:title" content="Steam Player Roles - Link Account">
    <meta property="og:description" content="Link your Discord account with your Steam profile to automatically receive server roles based on your Steam data.">
    <meta property="og:url" content=""##;

/// A part of the verify page.
pub const VERIFY_PART_3: &'static str = r##"/verify">
    <meta name="theme-color" content="#1b2838">
    <style>
        * { box-sizing: border-box; margin: 0; padding: 0; }
        body { font-family: system-ui, -apple-system, sans-serif; max-width: 580px; margin: 0 auto; padding: 32px 20px; background: #1b2838; color: #c7d5e0; min-height: 100vh; }
        h1 { color: #66c0f4; font-size: 24px; margin-bottom: 4px; }
        h2 { color: #fff; font-size: 17px; margin-bottom: 14px; }
        p { line-height: 1.6; margin: 6px 0; font-size: 14px; }
        a { color: #66c0f4; }
        .subtitle { color: #7a8a99; font-size: 14px; margin-bottom: 20px; }
        .card { background: #2a475e; padding: 22px; border-radius: 10px; margin: 14px 0; border: 1px solid #3a6186; }
        .btn { display: inline-flex; align-items: center; gap: 8px; padding: 10px 22px; color: #fff; text-decoration: none; border-radius: 6px; font-size: 14px; font-weight: 500; border: none; cursor: pointer; font-family: inherit; transition: background .15s; }
        .btn-discord { background: #5865f2; }
        .btn-discord:hover { background: #4752c4; }
        .btn-steam { background: #588a1b; }
        .btn-steam:hover { background: #4a7516; }
        .btn-danger { background: transparent; color: #f87171; border: 1px solid #7f1d1d; font-size: 13px; padding: 8px 16px; }
        .btn-danger:hover { background: #7f1d1d33; }
        .badge { display: inline-block; padding: 3px 10px; border-radius: 20px; font-size: 12px; font-weight: 500; }
        .badge-ok { background: #052e16; color: #4ade80; border: 1px solid #14532d; }
        .msg { padding: 10px 14px; border-radius: 6px; margin: 12px 0; font-size: 13px; line-height: 1.5; }
        .msg-error { background: #1c0a0a; color: #fca5a5; border: 1px solid #7f1d1d; }
        .msg-success { background: #052e16; color: #86efac; border: 1px solid #14532d; }
        .info-row { display: flex; align-items: center; gap: 8px; margin: 6px 0; font-size: 14px; }
        .info-row .label { color: #7a8a99; min-width: 80px; }
        .info-row .val { color: #66c0f4; font-weight: 600; }
        .actions { display: flex; gap: 8px; margin-top: 16px; flex-wrap: wrap; }
        .hidden { display: none !important; }
        .divider { border: none; border-top: 1px solid #3a6186; margin: 16px 0; }
        .trust-note { font-size: 13px; color: #8f9bab; background: #1b2838; border-left: 3px solid #66c0f4; padding: 10px 14px; border-radius: 0 6px 6px 0; margin: 10px 0; line-height: 1.6; }
        .trust-note strong { color: #c7d5e0; }
        .btn-logout { background: transparent; color: #8f9bab; border: 1px solid #3a6186; padding: 5px 12px; border-radius: 6px; font-size: 12px; cursor: pointer; font-family: inherit; transition: all .15s; }
        .btn-logout:hover { color: #f87171; border-color: #7f1d1d; background: #7f1d1d22; }
    </style>
</head>
<body>
    <div style="display:flex; align-items:center; justify-content:space-between; margin-bottom:4px;">
        <div style="display:flex; align-items:center; gap:10px;">
            <h1 style="margin:0;">Steam Player Roles</h1>
            <span style="font-size:11px; color:#7a8a99; background:#1b2838; padding:2px 8px; border-radius:4px;">Powered by <a href="https://rolelogic.faizo.net" target="_blank" rel="noopener" style="color:#66c0f4; text-decoration:none;">RoleLogic</a></span>
        </div>
        <button id="logout-btn" class="btn-logout hidden" onclick="doLogout()">Logout</button>
    </div>
    <p class="subtitle">Link your Discord account with your Steam profile to automatically receive server roles.</p>

    <div id="loading-section" class="card"><p style="color: #7a8a99;">Loading...</p></div>

    <div id="login-section" class="card hidden">
        <h2>Step 1: Sign in with Discord</h2>
        <p>Sign in so we know which Discord account to assign roles to.</p>
        <p class="trust-note">We request the <strong>identify</strong> and <strong>guilds</strong> scopes — we cannot read your messages, join servers, or access anything else on your account.</p>
        <div class="actions">
            <a href=""##;

/// A part of the verify page.
pub const VERIFY_PART_4: &'static str = r##"/verify/login" class="btn btn-discord">
                <svg width="20" height="15" viewBox="0 0 71 55" fill="white"><path d="M60.1 4.9A58.5 58.5 0 0045.4.2a.2.2 0 00-.2.1 40.8 40.8 0 00-1.8 3.7 54 54 0 00-16.2 0A37.3 37.3 0 0025.4.3a.2.2 0 00-.2-.1A58.4 58.4 0 0010.6 4.9a.2.2 0 00-.1.1C1.5 18 -.9 30.6.3 43a.2.2 0 00.1.2 58.7 58.7 0 0017.7 9 .2.2 0 00.3-.1 42 42 0 003.6-5.9.2.2 0 00-.1-.3 38.6 38.6 0 01-5.5-2.6.2.2 0 01 0-.4l1.1-.9a.2.2 0 01.2 0 41.9 41.9 0 0035.6 0 .2.2 0 01.2 0l1.1.9a.2.2 0 010 .3 36.3 36.3 0 01-5.5 2.7.2.2 0 00-.1.3 47.2 47.2 0 003.6 5.9.2.2 0 00.3.1A58.5 58.5 0 0070.3 43a.2.2 0 00.1-.2c1.4-14.7-2.4-27.5-10.2-38.8a.2.2 0 00-.1 0zM23.7 35.3c-3.4 0-6.1-3.1-6.1-6.8s2.7-6.9 6.1-6.9 6.2 3.1 6.1 6.9c0 3.7-2.7 6.8-6.1 6.8zm22.6 0c-3.4 0-6.1-3.1-6.1-6.8s2.7-6.9 6.1-6.9 6.2 3.1 6.1 6.9c0 3.7-2.7 6.8-6.1 6.8z"/></svg>
                Login with Discord
            </a>
        </div>
    </div>

    <div id="linked-section" class="card hidden">
        <div style="display:flex; align-items:center; gap:10px; margin-bottom:14px;">
            <h2 style="margin:0;">Account Linked</h2>
            <span class="badge badge-ok">Verified</span>
        </div>
        <div class="info-row"><span class="label">Steam</span> <span class="val" id="linked-steam"></span></div>
        <div class="info-row"><span class="label">Discord</span> <span class="val" id="linked-discord" style="color:#8f9bab;font-weight:400;font-size:13px;"></span></div>
        <p style="color:#4ade80; margin-top:12px; font-size:13px;">Your roles are assigned automatically based on your Steam data.</p>
        <p id="privacy-warning" class="msg msg-error hidden">"##;

/// What the verify page warns of when a member's game details are private.
pub const PRIVACY_WARNING: &'static str = "Your Steam game details are private, so roles based on games, playtime or achievements can't be assigned. Set Game details to Public in your Steam privacy settings, then press Re-check.";

/// What follows the warning on the verify page.
pub const VERIFY_AFTER_WARNING: &'static str = r##"</p>
        <hr class="divider">
        <div class="actions">
            <button class="btn btn-steam" onclick="doRecheck()">Re-check</button>
            <button class="btn btn-danger" onclick="doUnlink()">Unlink Account</button>
        </div>
    </div>

    <div id="steam-section" class="card hidden">
        <h2>Step 2: Link Your Steam Account</h2>
        <p>Signed in as <span id="steam-discord" style="color:#66c0f4;"></span></p>
        <p style="margin-bottom:12px;">Click below to sign in via Steam. You'll be redirected to Steam's login page and then back here.</p>
        <p class="trust-note">Steam uses OpenID authentication — we never see your Steam password. We only receive your public Steam ID to link with your Discord account.</p>
        <div class="actions">
            <a href=""##;

/// A part of the verify page.
pub const VERIFY_PART_5: &'static str = r##"/verify/steam" class="btn btn-steam">
                <svg width="20" height="20" viewBox="0 0 256 259" fill="white"><path d="M128.2 0C58.5 0 1.6 53.9.1 122.5l68.8 28.4a36.2 36.2 0 0 1 20.5-6.3h1.9l30.7-44.4v-.7c0-27 22-49 49-49s49 22 49 49-22 49-49 49h-1.1l-43.7 31.2v1.4c0 20.3-16.5 36.8-36.8 36.8a37 37 0 0 1-36.5-31.5L3.5 162.3C18.9 217 67.8 258.6 128.2 258.6c71.5 0 127.8-57.5 127.8-129.3C256 57.5 199.7 0 128.2 0z"/></svg>
                Link Steam Account
            </a>
        </div>
    </div>

    <div id="msg" class="hidden"></div>

    <noscript><p style="color:#f87171; margin-top:20px;">JavaScript is required.</p></noscript>

    <script>
    const API = '"##;

/// A part of the verify page.
pub const VERIFY_PART_6: &'static str = r##"';

    async function api(method, path, body) {
        const opts = { method, headers: {}, credentials: 'include' };
        if (body) {
            opts.headers['Content-Type'] = 'application/json';
            opts.body = JSON.stringify(body);
        }
        const res = await fetch(API + path, opts);
        const data = await res.json();
        if (!res.ok) throw new Error(data.error || 'Request failed');
        return data;
    }

    function showSection(id) {
        ['loading-section','login-section','linked-section','steam-section'].forEach(s =>
            document.getElementById(s).classList.add('hidden')
        );
        document.getElementById(id).classList.remove('hidden');
    }

    function showMsg(text, type) {
        const el = document.getElementById('msg');
        el.className = 'msg msg-' + type;
        el.textContent = text;
        el.classList.remove('hidden');
        if (type === 'success') setTimeout(() => el.classList.add('hidden'), 6000);
    }

    function clearMsg() { document.getElementById('msg').classList.add('hidden'); }

    let currentName = '';

    async function init() {
        try {
            const s = await api('GET', '/verify/status');
            currentName = s.display_name || '';
            document.getElementById('logout-btn').classList.remove('hidden');
            if (s.linked) {
                document.getElementById('linked-steam').textContent = s.steam_name || s.linked;
                document.getElementById('linked-discord').textContent = s.display_name;
                document.getElementById('privacy-warning').classList.toggle('hidden', s.library_visible !== false);
                showSection('linked-section');
            } else {
                document.getElementById('steam-discord').textContent = s.display_name;
                showSection('steam-section');
            }
        } catch (e) {
            showSection('login-section');
        }
    }

    async function doLogout() {
        clearMsg();
        try {
            await api('POST', '/verify/logout');
            document.getElementById('logout-btn').classList.add('hidden');
            showSection('login-section');
            showMsg('Logged out.', 'success');
        } catch (e) { showMsg(e.message, 'error'); }
    }

    async function doUnlink() {
        clearMsg();
        if (!confirm('Unlink your Steam account? You will lose all assigned roles.')) return;
        try {
            await api('POST', '/verify/unlink');
            document.getElementById('steam-discord').textContent = currentName;
            showSection('steam-section');
            showMsg('Account unlinked.', 'success');
        } catch (e) { showMsg(e.message, 'error'); }
    }

    async function doRecheck() {
        clearMsg();
        try {
            await api('POST', '"##;

/// Where the Re-check button of the verify page posts to.
pub const RECHECK_PATH: &'static str = "/verify/recheck";

/// What follows the path of the Re-check button on the verify page.
pub const VERIFY_AFTER_RECHECK: &'static str = r##"');
            showMsg('Re-check queued. Your roles will be updated shortly.', 'success');
        } catch (e) { showMsg(e.message, 'error'); }
    }

    // Check for callback result
    const params = new URLSearchParams(window.location.search);
    if (params.get('linked') === 'true') {
        window.history.replaceState({}, '', window.location.pathname);
    } else if (params.get('error')) {
        const err = params.get('error');
        window.history.replaceState({}, '', window.location.pathname);
        setTimeout(() => showMsg(decodeURIComponent(err), 'error'), 100);
    }

    init();
    </script>
</body>
</html>"##;

/// A part of the player list page.
pub const PLAYERS_PART_1: &'static str = r##"<!DOCTYPE html>
<html>
<head>
    <meta charset="utf-8">
    <meta name="viewport" content="width=device-width, initial-scale=1">
    <title>Steam Player Roles - Player List</title>
    <link rel="icon" href=""##;

/// A part of the player list page.
pub const PLAYERS_PART_2: &'static str = r##"/favicon.ico" type="image/x-icon">
    <meta name="description" content="View verified Steam players in this Discord server.">
    <meta name="theme-color" content="#1b2838">
    <style>
        * { box-sizing: border-box; margin: 0; padding: 0; }
        body { font-family: system-ui, -apple-system, sans-serif; max-width: 1060px; margin: 0 auto; padding: 32px 20px; background: #1b2838; color: #c7d5e0; min-height: 100vh; }
        .header { margin-bottom: 24px; }
        .header-top { display: flex; align-items: center; gap: 10px; margin-bottom: 6px; justify-content: space-between; }
        .header-title { display: flex; align-items: center; gap: 10px; }
        .header-top h1 { color: #66c0f4; font-size: 24px; }
        .powered { font-size: 11px; color: #7a8a99; background: #2a475e; padding: 2px 8px; border-radius: 4px; }
        .powered a { color: #66c0f4; text-decoration: none; }
        .guild-name { color: #c7d5e0; font-size: 18px; font-weight: 600; }
        .guild-label { color: #7a8a99; font-size: 13px; margin-top: 2px; }

        .card { background: #2a475e; padding: 22px; border-radius: 10px; border: 1px solid #3a6186; }
        .msg { padding: 10px 14px; border-radius: 6px; margin: 12px 0; font-size: 13px; line-height: 1.5; }
        .msg-error { background: #1c0a0a; color: #fca5a5; border: 1px solid #7f1d1d; }
        .hidden { display: none !important; }

        .toolbar { display: flex; align-items: center; justify-content: space-between; flex-wrap: wrap; gap: 10px; margin-bottom: 16px; }
        .search-wrap { position: relative; flex: 1; max-width: 340px; }
        .search-wrap svg { position: absolute; left: 10px; top: 50%; transform: translateY(-50%); color: #7a8a99; pointer-events: none; }
        .search-wrap input { width: 100%; padding: 8px 12px 8px 34px; font-size: 13px; border-radius: 6px; border: 1px solid #3a6186; background: #1b2838; color: #c7d5e0; font-family: inherit; transition: border-color .15s; }
        .search-wrap input:focus { outline: none; border-color: #66c0f4; }
        .search-hint { color: #7a8a99; font-size: 11px; margin-top: 4px; }
        .badge { display: inline-flex; align-items: center; gap: 5px; padding: 4px 12px; border-radius: 20px; font-size: 12px; font-weight: 500; background: #1b2838; color: #8f9bab; border: 1px solid #3a6186; white-space: nowrap; }

        .table-wrap { overflow-x: auto; }
        table { width: 100%; border-collapse: collapse; font-size: 13px; }
        th, td { padding: 9px 12px; text-align: left; white-space: nowrap; }
        th { color: #7a8a99; font-weight: 600; font-size: 11px; text-transform: uppercase; letter-spacing: 0.5px; border-bottom: 2px solid #3a6186; cursor: pointer; user-select: none; transition: color .15s; }
        th:hover { color: #c7d5e0; }
        th.sorted-asc::after { content: ' \25B2'; font-size: 9px; }
        th.sorted-desc::after { content: ' \25BC'; font-size: 9px; }
        td { border-bottom: 1px solid #1b2838; }
        tr:hover td { background: #1b283880; }
        .col-name { color: #c7d5e0; font-weight: 500; }
        .col-steamid { font-family: 'Courier New', monospace; }
        .col-steamid a { color: #66c0f4; text-decoration: none; }
        .col-steamid a:hover { text-decoration: underline; }
        .col-num { color: #66c0f4; text-align: right; }
        th.col-num { text-align: right; }
        .col-date { color: #7a8a99; font-size: 12px; }

        .empty-state { text-align: center; padding: 40px 20px; color: #7a8a99; }
        .empty-state p { font-size: 14px; margin-bottom: 4px; }
        .empty-state .hint { font-size: 12px; }

        .pagination { display: flex; align-items: center; justify-content: center; gap: 8px; margin-top: 16px; font-size: 13px; }
        .pagination button { padding: 6px 14px; border-radius: 6px; border: 1px solid #3a6186; background: #1b2838; color: #c7d5e0; cursor: pointer; font-family: inherit; font-size: 13px; transition: all .15s; }
        .pagination button:hover:not(:disabled) { background: #2a475e; border-color: #66c0f4; }
        .pagination button:disabled { opacity: 0.3; cursor: not-allowed; }
        .pagination .page-info { color: #7a8a99; }

        .logout-btn { padding: 6px 14px; border-radius: 6px; border: 1px solid #3a6186; background: #1b2838; color: #c7d5e0; cursor: pointer; font-family: inherit; font-size: 12px; transition: all .15s; }
        .logout-btn:hover { background: #2a475e; border-color: #ef4444; color: #fca5a5; }

        .login-btn { display: inline-block; padding: 10px 22px; border-radius: 6px; background: #5865f2; color: #fff; text-decoration: none; font-weight: 600; font-size: 14px; font-family: inherit; transition: background .15s; }
        .login-btn:hover { background: #4752c4; }
    </style>
</head>
<body>
    <div class="header">
        <div class="header-top">
            <div class="header-title">
                <h1>Steam Player Roles</h1>
                <span class="powered">Powered by <a href="https://rolelogic.faizo.net" target="_blank" rel="noopener">RoleLogic</a></span>
            </div>
            <form id="logout-form" class="logout-form" method="POST" action="/auth/logout">
                <button type="submit" class="logout-btn">Logout</button>
            </form>
        </div>
        <p class="guild-name" id="guild-name">Verified Players</p>
        <p class="guild-label" id="guild-label">Loading guild info...</p>
    </div>

    <div id="loading" class="card"><p style="color:#7a8a99;">Loading player data...</p></div>
    <div id="error-msg" class="hidden"></div>

    <div id="login-prompt" class="card hidden" style="text-align:center;">
        <p style="color:#c7d5e0; font-size:15px; margin-bottom:6px;">You are not signed in.</p>
        <p style="color:#7a8a99; font-size:13px; margin-bottom:18px;">Sign in with Discord to view this server's verified Steam players.</p>
        <a id="login-link" class="login-btn" href="#">Login with Discord</a>
    </div>

    <div id="content" class="hidden">
        <div class="card">
            <div class="toolbar">
                <div>
                    <div class="search-wrap">
                        <svg width="16" height="16" viewBox="0 0 24 24" fill="none" stroke="currentColor" stroke-width="2" stroke-linecap="round" stroke-linejoin="round"><circle cx="11" cy="11" r="8"/><line x1="21" y1="21" x2="16.65" y2="16.65"/></svg>
                        <input type="text" id="search" placeholder="Search players..." />
                    </div>
                    <p class="search-hint">Search by Steam name, Steam ID, or Discord ID</p>
                </div>
                <span class="badge" id="player-count"></span>
            </div>
            <div class="table-wrap">
                <table>
                    <thead>
                        <tr>
                            <th data-key="steam_name">Steam Name</th>
                            <th data-key="steam_id">Steam ID</th>
                            <th data-key="steam_level" class="col-num">Level</th>
                            <th data-key="total_games_owned" class="col-num">Games</th>
                            <th data-key="country_code">Country</th>
                            <th data-key="fetched_at">Last Updated</th>
                        </tr>
                    </thead>
                    <tbody id="tbody"></tbody>
                </table>
            </div>
            <div id="empty-state" class="empty-state hidden">
                <p>No players found</p>
                <p class="hint" id="empty-hint">Try a different search term</p>
            </div>
            <div class="pagination" id="pagination">
                <button id="btn-prev" onclick="goPage(state.page-1)">Prev</button>
                <span class="page-info" id="page-info"></span>
                <button id="btn-next" onclick="goPage(state.page+1)">Next</button>
            </div>
        </div>
    </div>

    <script>
    const parts = window.location.pathname.split('/').filter(Boolean);
    const guildId = parts[parts.indexOf('players') + 1] || '';
    const PER_PAGE = 20;
    const NUM_COLS = ['steam_level','total_games_owned'];

    (function setupAuthLinks() {
        const returnTo = window.location.pathname + window.location.search;
        const form = document.getElementById('logout-form');
        if (form) form.action = '/auth/logout?return_to=' + encodeURIComponent(returnTo);
        const loginLink = document.getElementById('login-link');
        if (loginLink) loginLink.href = '/auth/login?return_to=' + encodeURIComponent(returnTo);
    })();

    const state = { page: 1, sort: 'steam_level', order: 'desc', search: '', total: 0 };
    let debounceTimer = null;

    function timeAgo(iso) {
        if (!iso) return '-';
        const diff = Date.now() - new Date(iso).getTime();
        const mins = Math.floor(diff / 60000);
        if (mins < 1) return 'just now';
        if (mins < 60) return mins + 'm ago';
        const hrs = Math.floor(mins / 60);
        if (hrs < 24) return hrs + 'h ago';
        const days = Math.floor(hrs / 24);
        return days + 'd ago';
    }

    function esc(s) {
        const d = document.createElement('div');
        d.textContent = s;
        return d.innerHTML;
    }

    function render(players) {
        const tbody = document.getElementById('tbody');
        const emptyEl = document.getElementById('empty-state');
        tbody.innerHTML = '';
        if (players.length === 0) {
            emptyEl.classList.remove('hidden');
            document.getElementById('empty-hint').textContent = state.search
                ? 'No results for "' + state.search + '"'
                : 'No verified players in this guild yet';
        } else {
            emptyEl.classList.add('hidden');
        }
        players.forEach(p => {
            const tr = document.createElement('tr');
            tr.innerHTML =
                '<td class="col-name">' + esc(p.steam_name || '-') + '</td>' +
                '<td class="col-steamid"><a href="https://steamcommunity.com/profiles/' + esc(p.steam_id) + '" target="_blank" rel="noopener">' + esc(p.steam_id) + '</a></td>' +
                '<td class="col-num">' + (p.steam_level || 0) + '</td>' +
                '<td class="col-num">' + (p.total_games_owned || 0) + '</td>' +
                '<td>' + esc(p.country_code || '-') + '</td>' +
                '<td class="col-date">' + timeAgo(p.fetched_at) + '</td>';
            tbody.appendChild(tr);
        });
    }

    function updatePagination() {
        const totalPages = Math.max(1, Math.ceil(state.total / PER_PAGE));
        document.getElementById('player-count').textContent = state.total + ' player' + (state.total !== 1 ? 's' : '');
        document.getElementById('page-info').textContent = 'Page ' + state.page + ' of ' + totalPages;
        document.getElementById('btn-prev').disabled = state.page <= 1;
        document.getElementById('btn-next').disabled = state.page >= totalPages;
        document.getElementById('pagination').classList.toggle('hidden', state.total <= PER_PAGE);
    }

    function updateSortUI() {
        document.querySelectorAll('th[data-key]').forEach(h => {
            h.classList.remove('sorted-asc', 'sorted-desc');
            if (h.dataset.key === state.sort) h.classList.add('sorted-' + state.order);
        });
    }

    async function fetchData() {
        const params = new URLSearchParams({
            page: state.page, per_page: PER_PAGE,
            sort: state.sort, order: state.order
        });
        if (state.search) params.set('search', state.search);
        const res = await fetch('"##;

/// A part of the player list page.
pub const PLAYERS_PART_3: &'static str = r##"/players/' + encodeURIComponent(guildId) + '/data?' + params, { credentials: 'same-origin' });
        if (res.status === 401) {
            const data = await res.json().catch(() => ({}));
            const err = new Error(data.error || 'You are not signed in.');
            err.authRequired = true;
            throw err;
        }
        if (!res.ok) {
            const data = await res.json().catch(() => ({}));
            throw new Error(data.error || 'Failed to load player data');
        }
        return res.json();
    }

    async function load() {
        try {
            const data = await fetchData();
            state.total = data.total;
            if (data.guild_name) {
                document.getElementById('guild-name').textContent = data.guild_name;
                document.getElementById('guild-label').textContent = 'Verified Steam players';
                document.title = data.guild_name + ' - Steam Player Roles';
            } else {
                document.getElementById('guild-name').textContent = 'Verified Players';
                document.getElementById('guild-label').textContent = 'Steam player list';
            }
            render(data.players);
            updatePagination();
            updateSortUI();
            document.getElementById('loading').classList.add('hidden');
            document.getElementById('content').classList.remove('hidden');
            document.getElementById('error-msg').classList.add('hidden');
        } catch (e) {
            document.getElementById('loading').classList.add('hidden');
            if (e && e.authRequired) {
                document.getElementById('login-prompt').classList.remove('hidden');
                document.getElementById('error-msg').classList.add('hidden');
                document.getElementById('content').classList.add('hidden');
                const form = document.getElementById('logout-form');
                if (form) form.classList.add('hidden');
                document.getElementById('guild-name').textContent = 'Verified Players';
                document.getElementById('guild-label').textContent = 'Sign in to view this server\'s player list';
            } else {
                document.getElementById('guild-name').textContent = 'Verified Players';
                document.getElementById('guild-label').textContent = '';
                const el = document.getElementById('error-msg');
                el.className = 'msg msg-error';
                el.textContent = e.message;
                el.classList.remove('hidden');
            }
        }
    }

    function goPage(p) {
        const totalPages = Math.max(1, Math.ceil(state.total / PER_PAGE));
        state.page = Math.max(1, Math.min(p, totalPages));
        load();
    }

    document.querySelectorAll('th[data-key]').forEach(th => {
        th.addEventListener('click', () => {
            const key = th.dataset.key;
            if (state.sort === key) {
                state.order = state.order === 'asc' ? 'desc' : 'asc';
            } else {
                state.sort = key;
                state.order = NUM_COLS.includes(key) ? 'desc' : 'asc';
            }
            state.page = 1;
            load();
        });
    });

    document.getElementById('search').addEventListener('input', e => {
        clearTimeout(debounceTimer);
        debounceTimer = setTimeout(() => {
            state.search = e.target.value.trim();
            state.page = 1;
            load();
        }, 300);
    });

    load();
    </script>
</body>
</html>"##;

/// A part of the page that shows an error.
pub const INLINE_ERROR_PART_1: &'static str = r##"<!DOCTYPE html><html><head><meta charset="utf-8">
<meta name="viewport" content="width=device-width, initial-scale=1">
<title>Cannot load configuration</title>
<link rel="icon" href=""##;

/// A part of the page that shows an error.
pub const INLINE_ERROR_PART_2: &'static str = r##"/favicon.ico">
<style>body{font-family:system-ui,sans-serif;background:#0f1115;color:#e8eaed;padding:32px 24px;line-height:1.5}
h1{color:#fca5a5;font-size:18px;margin-bottom:10px}p{color:#9aa3b2}</style>
</head><body><h1>Cannot load configuration</h1><p>"##;

/// A part of the page that shows an error.
pub const INLINE_ERROR_PART_3: &'static str = r##"</p>
<p style="margin-top:14px;color:#7a8497">If you opened this from the RoleLogic dashboard, close and reopen the role's plugin tab.</p>
</body></html>"##;

/// A part of the page that misses a token.
pub const NO_TOKEN_PART_1: &'static str = r##"<!DOCTYPE html><html><head><meta charset="utf-8">
<meta name="viewport" content="width=device-width, initial-scale=1">
<title>Configuration unavailable</title>
<link rel="icon" href=""##;

/// A part of the page that misses a token.
pub const NO_TOKEN_PART_2: &'static str = r##"/favicon.ico">
<style>body{font-family:system-ui,sans-serif;background:#0f1115;color:#e8eaed;padding:32px 24px;line-height:1.55;max-width:560px}
h1{color:#fbbf24;font-size:18px;margin:0 0 10px}p{color:#9aa3b2;margin:8px 0}
code{background:#0b0d12;padding:2px 6px;border-radius:4px;font-size:12px}</style>
</head><body>
<h1>RoleLogic didn't pass an authentication token</h1>
<p>This plugin page must be opened from inside the RoleLogic dashboard, which
attaches a one-time token. None arrived with this request.</p>
<p><strong>If you're the server admin:</strong> close this tab and reopen the
role's plugin tab from RoleLogic. If it keeps happening, the plugin is
mis-registered — its <code>BASE_URL</code> must exactly match the URL
configured for this plugin in RoleLogic: HTTPS, no trailing slash, and
including the <code>/steam-player-role</code> path prefix.</p>
<p style="color:#7a8497;font-size:12px;margin-top:16px">Configured BASE_URL:
<code>"##;

/// A part of the page that misses a token.
pub const NO_TOKEN_PART_3: &'static str = r##"</code></p>
</body></html>"##;

/// A part of the page that asks to sign in.
pub const SIGN_IN_PART_1: &'static str = r##"<!DOCTYPE html><html><head><meta charset="utf-8">
<meta name="viewport" content="width=device-width, initial-scale=1">
<title>Sign in — Steam Player Roles</title>
<link rel="icon" href=""##;

/// A part of the page that asks to sign in.
pub const SIGN_IN_PART_2: &'static str = r##"/favicon.ico">
<style>body{font-family:system-ui,sans-serif;background:#0f1115;color:#e8eaed;padding:48px 24px;max-width:520px;margin:0 auto;line-height:1.55}
h1{font-size:22px;margin:0 0 12px}p{color:#9aa3b2}
a.btn{display:inline-block;margin-top:18px;background:#5865f2;color:#fff;padding:12px 22px;border-radius:8px;text-decoration:none;font-weight:600}
.actions{display:flex;gap:10px;align-items:center;flex-wrap:wrap;margin-top:18px}
.actions a.btn{margin-top:0}
form.logout-form{margin:0}
button.logout{background:none;color:#8a93a4;border:1px solid #2a2f3a;padding:10px 16px;border-radius:8px;font-size:13px;font-weight:600;cursor:pointer;font-family:inherit}
button.logout:hover{color:#fca5a5;border-color:#5c2630}</style>
</head><body>
<h1>Sign in to continue</h1>
<p>You need <strong>Manage Server</strong> on this guild to edit its
Steam Player Roles configuration.</p>
<p style="color:#7a8497;font-size:12px">"##;

/// A part of the page that asks to sign in.
pub const SIGN_IN_PART_3: &'static str = r##"</p>
<div class="actions">
  <a class="btn" id="login">Sign in with Discord</a>
  <form class="logout-form" method="POST" action="/auth/logout">
    <button type="submit" class="logout">Sign out &amp; try another account</button>
  </form>
</div>
<script>
const ORIGIN=new URL(""##;

/// A part of the page that asks to sign in.
pub const SIGN_IN_PART_4: &'static str = r##"").origin;
const RET=encodeURIComponent(location.pathname);
document.getElementById('login').href=ORIGIN+'/auth/login?return_to='+RET;
document.querySelectorAll('form.logout-form').forEach(f=>{
  f.action=ORIGIN+'/auth/logout?return_to='+RET;
});
</script>
</body></html>"##;

} // verus!

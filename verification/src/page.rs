//! The document that every request is answered with.

use vstd::prelude::*;

verus! {

/// The media type the document is served under.
pub const HTML_CONTENT_TYPE: &'static str = "text/html; charset=utf-8";

/// The document itself: markup, style and the script that runs in the browser.
pub const RESPONSE_DOCUMENT: &'static str = r#"
<!DOCTYPE html>
<html>
<head>
    <title>Dropbox Connected!</title>
    <style>
        body {
            font-family: -apple-system, BlinkMacSystemFont, 'Segoe UI', Roboto, sans-serif;
            display: flex;
            justify-content: center;
            align-items: center;
            min-height: 100vh;
            margin: 0;
            background: linear-gradient(135deg, #667eea 0%, #764ba2 100%);
        }
        .container {
            background: white;
            padding: 40px;
            border-radius: 16px;
            box-shadow: 0 20px 60px rgba(0,0,0,0.3);
            max-width: 500px;
            text-align: center;
        }
        .success-icon { font-size: 64px; margin-bottom: 20px; }
        h1 { color: #333; margin: 0 0 10px 0; }
        p { color: #666; line-height: 1.6; margin: 10px 0; }
        .highlight {
            background: #f0f0f0;
            padding: 15px;
            border-radius: 8px;
            margin: 20px 0;
            font-weight: 600;
            color: #667eea;
        }
    </style>
</head>
<body>
    <div class="container">
        <div class="success-icon">✅</div>
        <h1 id="status">Successfully Connected!</h1>
        <p id="message">Token copied to clipboard!</p>
        <div class="highlight">Switch back to Calendarly to finish connecting</div>
        <p style="font-size: 14px; color: #999;">You can close this tab after switching back</p>
    </div>
    <script>
        // Extract full URL with token
        const fullUrl = window.location.href;
        const hash = window.location.hash;

        if (hash && hash.includes('access_token')) {
            // Copy full URL to clipboard
            navigator.clipboard.writeText(fullUrl).then(() => {
                console.log('Token URL copied to clipboard');
            }).catch((err) => {
                console.error('Failed to copy to clipboard:', err);
                document.getElementById('message').textContent = 'Could not copy automatically. Please switch back to Calendarly.';
            });
        } else {
            document.querySelector('.success-icon').textContent = '❌';
            document.getElementById('status').textContent = 'Connection Failed';
            document.getElementById('message').textContent = 'No access token found. Please try again.';
            document.querySelector('.highlight').style.display = 'none';
        }
    </script>
</body>
</html>
            "#;

/// The document, the same text on every call.
pub fn response_document() -> (document: &'static str)
    ensures
        document@ == RESPONSE_DOCUMENT@,
{
    RESPONSE_DOCUMENT
}

} // verus!

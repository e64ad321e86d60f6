//! The page that stands in for the wallet: it asks the subject to accept or
//! reject one verification and reports an acceptance to the server.

use vstd::prelude::*;
use vstd::string::*;

verus! {

/// The page up to the place where the session identifier is written.
pub const PAGE_HEAD: &'static str = r#"<!DOCTYPE html>
<html>
<head>
    <title>PYLON Fake Wallet</title>
    <style>
        body {
            font-family: -apple-system, BlinkMacSystemFont, "Segoe UI", Roboto, sans-serif;
            display: flex;
            justify-content: center;
            align-items: center;
            height: 100vh;
            margin: 0;
            background: linear-gradient(135deg, #667eea 0%, #764ba2 100%);
        }
        .wallet {
            background: white;
            border-radius: 12px;
            padding: 40px;
            box-shadow: 0 20px 60px rgba(0,0,0,0.3);
            text-align: center;
            max-width: 400px;
        }
        h1 {
            color: #333;
            margin: 0 0 10px 0;
        }
        p {
            color: #666;
            margin: 0 0 30px 0;
        }
        .buttons {
            display: flex;
            gap: 10px;
        }
        button {
            flex: 1;
            padding: 12px 20px;
            border: none;
            border-radius: 8px;
            font-size: 16px;
            font-weight: 600;
            cursor: pointer;
            transition: all 0.3s;
        }
        .accept {
            background: rgb(16, 185, 129);
            color: white;
        }
        .accept:hover {
            background: rgb(5, 150, 105);
            transform: scale(1.02);
        }
        .reject {
            background: rgb(239, 68, 68);
            color: white;
        }
        .reject:hover {
            background: rgb(220, 38, 38);
            transform: scale(1.02);
        }
        .loading {
            display: none;
            margin-top: 20px;
            color: rgb(102, 126, 234);
            font-weight: 600;
        }
        .success {
            color: rgb(16, 185, 129);
        }
    </style>
</head>
<body>
    <div class="wallet">
        <h1>🔑 Age Verification</h1>
        <p id="message">Verify that you are at least 18 years old?</p>
        <div class="buttons">
            <button class="accept" onclick="acceptVerification()">✅ Accept</button>
            <button class="reject" onclick="rejectVerification()">❌ Reject</button>
        </div>
        <div class="loading" id="loading">
            Processing... Please wait
        </div>
    </div>
    
    <script>
        const verificationId = ""#;

/// The page after the session identifier.
pub const PAGE_TAIL: &'static str = r#"";
        
        async function acceptVerification() {
            document.getElementById("loading").style.display = "block";
            document.querySelectorAll("button").forEach(b => b.disabled = true);
            
            try {
                const response = await fetch(
                    `http://localhost:7777/webhook/accept/${verificationId}`,
                    { method: "POST" }
                );
                
                if (response.ok) {
                    document.getElementById("message").textContent = "✅ Verified! Webhook sent.";
                    document.getElementById("message").className = "success";
                } else {
                    alert("Error: " + response.statusText);
                }
            } catch (e) {
                alert("Error: " + e.message);
            }
        }
        
        function rejectVerification() {
            alert("You rejected the verification.");
            window.history.back();
        }
    </script>
</body>
</html>"#;

/// The wallet page of the session `id`: the fixed text with the identifier
/// written into its script, as it is.
pub open spec fn page_of(id: Seq<char>) -> Seq<char> {
    PAGE_HEAD@ + id + PAGE_TAIL@
}

/// Builds the wallet page of a session.
pub fn wallet_page(id: &str) -> (page: String)
    ensures
        page@ == page_of(id@),
{
    let mut page = String::from_str(PAGE_HEAD);
    page.append(id);
    page.append(PAGE_TAIL);
    page
}

} // verus!

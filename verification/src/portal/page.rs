//! The configuration page.
use vstd::prelude::*;

verus! {

/// The embedded configuration page. Prefills from `/api/config`, posts JSON
/// back, and tells the user the hub restarts to apply.
pub const INDEX_HTML: &'static str = r#"<!doctype html>
<html lang="en">
<head>
<meta charset="utf-8">
<meta name="viewport" content="width=device-width,initial-scale=1">
<title>Walkie-Textie Hub</title>
<style>
body{font-family:system-ui,sans-serif;margin:0;background:#f2f2f0;color:#1c1c1c}
main{max-width:26rem;margin:0 auto;padding:1.2rem}
h1{font-size:1.3rem}
fieldset{border:1px solid #ccc;border-radius:8px;margin:0 0 1rem;padding:.8rem}
legend{font-weight:600;padding:0 .3rem}
label{display:block;font-size:.85rem;margin:.5rem 0 .15rem}
input,select{width:100%;box-sizing:border-box;padding:.5rem;border:1px solid #bbb;border-radius:6px;font-size:1rem}
button{width:100%;padding:.7rem;border:0;border-radius:8px;background:#128c7e;color:#fff;font-size:1rem;font-weight:600}
#msg{margin-top:.8rem;font-size:.9rem;min-height:1.2rem}
.gw{display:none}
</style>
</head>
<body>
<main>
<h1>Walkie-Textie Hub setup</h1>
<form id="f">
<fieldset><legend>WiFi</legend>
<label>Network name (SSID)</label><input name="wifi_ssid" required>
<label>Password</label><input name="wifi_password" type="password" placeholder="leave blank to keep">
</fieldset>
<fieldset><legend>Mode</legend>
<select name="mode" id="mode">
<option value="bridge">MQTT bridge</option>
<option value="gateway">LoRaWAN gateway</option>
</select>
</fieldset>
<fieldset><legend>MQTT broker</legend>
<label>Host</label><input name="mqtt_host">
<label>Port</label><input name="mqtt_port" type="number" value="1883">
</fieldset>
<fieldset class="gw" id="gwbox"><legend>LoRaWAN network server</legend>
<label>Host</label><input name="gw_host">
<label>Port</label><input name="gw_port" type="number" value="1700">
<label>Frequency (Hz)</label><input name="gw_freq_hz" type="number" value="868100000">
<label>Spreading factor</label><input name="gw_sf" type="number" min="7" max="12" value="7">
</fieldset>
<button type="submit">Save and restart</button>
<div id="msg"></div>
</form>
<script>
const f=document.getElementById('f'),m=document.getElementById('msg');
const showGw=()=>{document.getElementById('gwbox').style.display=f.mode.value==='gateway'?'block':'none'};
f.mode.addEventListener('change',showGw);
fetch('/api/config').then(r=>r.json()).then(c=>{
 f.wifi_ssid.value=c.wifi_ssid;f.mode.value=c.mode;f.mqtt_host.value=c.mqtt_host;
 f.mqtt_port.value=c.mqtt_port;f.gw_host.value=c.gw_host;f.gw_port.value=c.gw_port;
 f.gw_freq_hz.value=c.gw_freq_hz;f.gw_sf.value=c.gw_sf;showGw();
}).catch(()=>{});
f.addEventListener('submit',e=>{
 e.preventDefault();
 const d={wifi_ssid:f.wifi_ssid.value,mode:f.mode.value};
 if(f.wifi_password.value)d.wifi_password=f.wifi_password.value;
 if(f.mqtt_host.value){d.mqtt_host=f.mqtt_host.value;d.mqtt_port=+f.mqtt_port.value}
 if(f.mode.value==='gateway'&&f.gw_host.value){d.gw_host=f.gw_host.value;d.gw_port=+f.gw_port.value;
  d.gw_freq_hz=+f.gw_freq_hz.value;d.gw_sf=+f.gw_sf.value}
 m.textContent='Saving...';
 fetch('/api/config',{method:'POST',headers:{'Content-Type':'application/json'},body:JSON.stringify(d)})
 .then(r=>r.json()).then(j=>{m.textContent=j.ok?'Saved. The hub is restarting and will join your WiFi.':'Rejected: '+(j.error||'check the values')})
 .catch(()=>{m.textContent='No reply - the hub may already be restarting.'});
});
</script>
</main>
</body>
</html>
"#;

} // verus!

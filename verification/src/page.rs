//! The page that presents the calculator.

use vstd::prelude::*;

verus! {

/// The calculator's page: a form for the eight inputs, a button that fills
/// in the default configuration, and a place for the results.
pub const PAGE: &'static str = r#"
    <!DOCTYPE html>
    <html>
        <head>
            <title>Interest Rate Calculator</title>
            <style>
                body { font-family: Arial, sans-serif; margin: 20px; background-color: #f0f0f0; }
                .container { max-width: 600px; margin: 0 auto; background-color: white; padding: 20px; border-radius: 8px; box-shadow: 0 0 10px rgba(0,0,0,0.1); }
                h1 { color: #333; text-align: center; }
                form { margin: 20px 0; }
                label { display: block; margin: 10px 0 5px; color: #666; }
                input { padding: 8px; width: 100%; box-sizing: border-box; border: 1px solid #ddd; border-radius: 4px; }
                button { padding: 10px 15px; margin-top: 10px; background-color: #4CAF50; color: white; border: none; border-radius: 4px; cursor: pointer; width: 100%; }
                button:hover { background-color: #45a049; }
                #results { margin-top: 20px; background-color: #e9f7ef; padding: 15px; border-radius: 4px; }
            </style>
        </head>
        <body>
            <div class="container">
                <h1>Interest Rate Calculator</h1>
                <form id="calculatorForm">
                    <label for="current_utilization">Current Utilization Ratio (in %):</label>
                    <input type="number" id="current_utilization" name="current_utilization" required min="0" max="100" step="0.01">
                    
                    <label for="elapsed_time_seconds">Elapsed Time (in seconds):</label>
                    <input type="number" id="elapsed_time_seconds" name="elapsed_time_seconds" required min="0">
                    
                    <label for="curve_steepness">Curve Steepness:</label>
                    <input type="number" id="curve_steepness" name="curve_steepness" value="4" step="0.01">
                    
                    <label for="initial_rate">Initial Rate (% per year):</label>
                    <input type="number" id="initial_rate" name="initial_rate" value="4" step="0.01">
                    
                    <label for="adjustment_speed">Adjustment Speed (% per year):</label>
                    <input type="number" id="adjustment_speed" name="adjustment_speed" value="50" step="0.01">
                    
                    <label for="target_utilization">Target Utilization (%):</label>
                    <input type="number" id="target_utilization" name="target_utilization" value="90" step="0.01">
                    
                    <label for="min_rate">Minimum Rate (% per year):</label>
                    <input type="number" id="min_rate" name="min_rate" value="0.1" step="0.01">
                    
                    <label for="max_rate">Maximum Rate (% per year):</label>
                    <input type="number" id="max_rate" name="max_rate" value="200" step="0.01">
                    
                    <button type="submit">Calculate</button>
                    <button type="button" id="useDefault">Use Default Config</button>
                </form>
                <div id="results"></div>
            </div>
            <script>
                document.getElementById('calculatorForm').addEventListener('submit', function(e) {
                    e.preventDefault();
                    const formData = new FormData(this);
                    fetch('/calculate', {
                        method: 'POST',
                        body: formData
                    })
                    .then(response => response.text())
                    .then(data => {
                        document.getElementById('results').innerHTML = data;
                    })
                    .catch(error => console.error('Error:', error));
                });

                document.getElementById('useDefault').addEventListener('click', function() {
                    document.getElementById('curve_steepness').value = '4';
                    document.getElementById('initial_rate').value = '4';
                    document.getElementById('adjustment_speed').value = '50';
                    document.getElementById('target_utilization').value = '90';
                    document.getElementById('min_rate').value = '0.1';
                    document.getElementById('max_rate').value = '200';
                });
            </script>
        </body>
    </html>
    "#;

/// The text of the calculator's page.
pub fn get_html_content() -> (r: String)
    ensures
        r@ == PAGE@,
{
    PAGE.to_owned()
}

/// The body served at the root path: the calculator's page.
pub fn index() -> (r: String)
    ensures
        r@ == PAGE@,
{
    get_html_content()
}

} // verus!

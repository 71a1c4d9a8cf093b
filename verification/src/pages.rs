//! The HTML pages: the chat page and the page that chooses the default model.

use vstd::prelude::*;
use crate::balancer::LoadBalancer;
use crate::models::{Provider, SetDefaultRequest};
use crate::names::{entries_view, sort_models_by_name, sorted_by_name};
use crate::tables::lists_routes;
use crate::text::{replace_slashes, same_text, slashes_to_underscores};

verus! {

// The chat page around the current model name.
pub const CHAT_PAGE_HEAD: &'static str = "<!DOCTYPE html>\n<html lang=\"en\">\n<head>\n    <meta charset=\"UTF-8\">\n    <meta name=\"viewport\" content=\"width=device-width, initial-scale=1.0\">\n    <title>LLM Chat - Load Balancer</title>\n    <style>\n        * { box-sizing: border-box; margin: 0; padding: 0; }\n        :root {\n            --bg-primary: #212121;\n            --bg-secondary: #2f2f2f;\n            --bg-tertiary: #424242;\n            --text-primary: #ececec;\n            --text-secondary: #b4b4b4;\n            --accent: #10a37f;\n            --accent-hover: #1a7f64;\n            --border: #424242;\n            --error: #ef4444;\n        }\n        body {\n            font-family: 'Söhne', 'ui-sans-serif', 'system-ui', -apple-system, BlinkMacSystemFont, 'Segoe UI', Roboto, sans-serif;\n            background-color: var(--bg-primary);\n            color: var(--text-primary);\n            height: 100vh;\n            display: flex;\n            flex-direction: column;\n            overflow: hidden;\n        }\n        .header {\n            display: flex;\n            align-items: center;\n            justify-content: space-between;\n            padding: 12px 16px;\n            border-bottom: 1px solid var(--border);\n            background-color: var(--bg-secondary);\n        }\n        .header h1 { font-size: 1rem; font-weight: 600; }\n        .header-links { display: flex; gap: 12px; }\n        .header-links a { color: var(--text-secondary); text-decoration: none; font-size: 0.875rem; }\n        .header-links a:hover { color: var(--text-primary); }\n        .model-info {\n            display: flex;\n            align-items: center;\n            gap: 8px;\n            padding: 8px 16px;\n            background-color: var(--bg-secondary);\n            border-bottom: 1px solid var(--border);\n            font-size: 0.875rem;\n        }\n        .model-badge {\n            background-color: var(--accent);\n            color: white;\n            padding: 4px 10px;\n            border-radius: 12px;\n            font-size: 0.75rem;\n            font-weight: 500;\n        }\n        .chat-container {\n            flex: 1;\n            overflow-y: auto;\n            padding: 20px;\n            scroll-behavior: smooth;\n        }\n        .messages {\n            max-width: 800px;\n            margin: 0 auto;\n            display: flex;\n            flex-direction: column;\n            gap: 24px;\n        }\n        .welcome { text-align: center; padding: 60px 20px; color: var(--text-secondary); }\n        .welcome h2 { font-size: 1.5rem; margin-bottom: 8px; color: var(--text-primary); }\n        .welcome p { font-size: 1rem; }\n        .message { display: flex; gap: 16px; animation: fadeIn 0.3s ease; }\n        @keyframes fadeIn {\n            from { opacity: 0; transform: translateY(10px); }\n            to { opacity: 1; transform: translateY(0); }\n        }\n        .message-avatar {\n            width: 36px;\n            height: 36px;\n            border-radius: 4px;\n            display: flex;\n            align-items: center;\n            justify-content: center;\n            font-weight: 600;\n            font-size: 0.875rem;\n            flex-shrink: 0;\n        }\n        .message.user .message-avatar { background-color: #5436da; }\n        .message.assistant .message-avatar { background-color: var(--accent); }\n        .message-content { flex: 1; min-width: 0; }\n        .message-header { display: flex; align-items: center; gap: 8px; margin-bottom: 8px; flex-wrap: wrap; }\n        .message-role { font-weight: 600; font-size: 0.875rem; }\n        .message-meta { font-size: 0.75rem; color: var(--text-secondary); display: flex; gap: 12px; flex-wrap: wrap; }\n        .tps-badge { background-color: rgba(16, 163, 127, 0.2); color: var(--accent); padding: 2px 8px; border-radius: 4px; font-weight: 500; }\n        .model-name-badge { background-color: rgba(84, 54, 218, 0.2); color: #a78bfa; padding: 2px 8px; border-radius: 4px; }\n        .message-text { font-size: 0.9375rem; line-height: 1.6; white-space: pre-wrap; word-wrap: break-word; }\n        .reasoning-content {\n            background-color: rgba(168, 85, 247, 0.1);\n            border-left: 3px solid rgba(168, 85, 247, 0.5);\n            padding: 12px;\n            margin-bottom: 12px;\n            border-radius: 0 4px 4px 0;\n            font-size: 0.875rem;\n            line-height: 1.6;\n            color: #a78bfa;\n            font-style: italic;\n        }\n        .reasoning-toggle {\n            display: flex;\n            align-items: center;\n            gap: 8px;\n            font-size: 0.75rem;\n            color: var(--text-secondary);\n            margin-bottom: 8px;\n            cursor: pointer;\n            user-select: none;\n        }\n        .reasoning-toggle:hover {\n            color: var(--text-primary);\n        }\n        .reasoning-toggle svg {\n            width: 14px;\n            height: 14px;\n            transition: transform 0.2s;\n        }\n        .reasoning-toggle.expanded svg {\n            transform: rotate(180deg);\n        }\n        .message-images { display: flex; flex-wrap: wrap; gap: 8px; margin-bottom: 12px; }\n        .message-images img { max-width: 200px; max-height: 200px; border-radius: 8px; object-fit: cover; cursor: pointer; }\n        .input-container { padding: 16px; background-color: var(--bg-primary); border-top: 1px solid var(--border); }\n        .input-wrapper { max-width: 800px; margin: 0 auto; }\n        .input-box { display: flex; flex-direction: column; background-color: var(--bg-tertiary); border: 1px solid var(--border); border-radius: 12px; overflow: hidden; }\n        .image-preview-container { display: none; flex-wrap: wrap; gap: 8px; padding: 12px; border-bottom: 1px solid var(--border); }\n        .image-preview-container.has-images { display: flex; }\n        .image-preview { position: relative; width: 80px; height: 80px; }\n        .image-preview img { width: 100%; height: 100%; object-fit: cover; border-radius: 8px; }\n        .image-preview .remove-image {\n            position: absolute;\n            top: -6px;\n            right: -6px;\n            width: 20px;\n            height: 20px;\n            background-color: var(--error);\n            color: white;\n            border: none;\n            border-radius: 50%;\n            cursor: pointer;\n            font-size: 12px;\n            display: flex;\n            align-items: center;\n            justify-content: center;\n        }\n        .input-row { display: flex; align-items: flex-end; }\n        textarea {\n            flex: 1;\n            background: transparent;\n            border: none;\n            color: var(--text-primary);\n            font-size: 1rem;\n            padding: 12px;\n            resize: none;\n            outline: none;\n            font-family: inherit;\n            min-height: 24px;\n            max-height: 200px;\n        }\n        textarea::placeholder { color: var(--text-secondary); }\n        .input-actions { display: flex; padding: 12px; gap: 8px; }\n        .action-btn {\n            background: transparent;\n            border: none;\n            color: var(--text-secondary);\n            cursor: pointer;\n            padding: 8px;\n            border-radius: 8px;\n            display: flex;\n            align-items: center;\n            justify-content: center;\n            transition: background-color 0.2s;\n        }\n        .action-btn:hover { background-color: rgba(255, 255, 255, 0.1); }\n        .action-btn.send-btn { background-color: var(--accent); color: white; }\n        .action-btn.send-btn:hover { background-color: var(--accent-hover); }\n        .action-btn.send-btn:disabled { background-color: var(--border); cursor: not-allowed; }\n        .action-btn svg { width: 20px; height: 20px; }\n        #image-input { display: none; }\n        .loading { display: flex; gap: 4px; padding: 12px; }\n        .loading-dot { width: 8px; height: 8px; background-color: var(--text-secondary); border-radius: 50%; animation: bounce 1.4s infinite ease-in-out both; }\n        .loading-dot:nth-child(1) { animation-delay: -0.32s; }\n        .loading-dot:nth-child(2) { animation-delay: -0.16s; }\n        @keyframes bounce {\n            0%, 80%, 100% { transform: scale(0); }\n            40% { transform: scale(1); }\n        }\n        .error-message { color: var(--error); padding: 12px; text-align: center; }\n        ::-webkit-scrollbar { width: 8px; }\n        ::-webkit-scrollbar-track { background: transparent; }\n        ::-webkit-scrollbar-thumb { background: var(--border); border-radius: 4px; }\n        ::-webkit-scrollbar-thumb:hover { background: var(--text-secondary); }\n    </style>\n</head>\n<body>\n    <div class=\"header\">\n        <h1>🤖 LLM Load Balancer Chat</h1>\n        <div class=\"header-links\">\n            <a href=\"/set_default\">Settings</a>\n            <a href=\"/v1/models\">Models API</a>\n        </div>\n    </div>\n    <div class=\"model-info\">\n        <span>Current Model:</span>\n        <span class=\"model-badge\" id=\"current-model\">";

pub const CHAT_PAGE_TAIL: &'static str = "</span>\n    </div>\n    <div class=\"chat-container\" id=\"chat-container\">\n        <div class=\"messages\" id=\"messages\">\n            <div class=\"welcome\">\n                <h2>Welcome to LLM Chat</h2>\n                <p>Send a message to start chatting with the AI model. You can also upload images.</p>\n            </div>\n        </div>\n    </div>\n    <div class=\"input-container\">\n        <div class=\"input-wrapper\">\n            <div class=\"input-box\">\n                <div class=\"image-preview-container\" id=\"image-preview-container\"></div>\n                <div class=\"input-row\">\n                    <textarea id=\"message-input\" placeholder=\"Type your message...\" rows=\"1\"></textarea>\n                    <div class=\"input-actions\">\n                        <input type=\"file\" id=\"image-input\" accept=\"image/*\" multiple>\n                        <button class=\"action-btn\" id=\"upload-btn\" title=\"Upload image\">\n                            <svg xmlns=\"http://www.w3.org/2000/svg\" fill=\"none\" viewBox=\"0 0 24 24\" stroke=\"currentColor\">\n                                <path stroke-linecap=\"round\" stroke-linejoin=\"round\" stroke-width=\"2\" d=\"M4 16l4.586-4.586a2 2 0 012.828 0L16 16m-2-2l1.586-1.586a2 2 0 012.828 0L20 14m-6-6h.01M6 20h12a2 2 0 002-2V6a2 2 0 00-2-2H6a2 2 0 00-2 2v12a2 2 0 002 2z\" />\n                            </svg>\n                        </button>\n                        <button class=\"action-btn send-btn\" id=\"send-btn\" title=\"Send message\">\n                            <svg xmlns=\"http://www.w3.org/2000/svg\" fill=\"none\" viewBox=\"0 0 24 24\" stroke=\"currentColor\">\n                                <path stroke-linecap=\"round\" stroke-linejoin=\"round\" stroke-width=\"2\" d=\"M12 19l9 2-9-18-9 18 9-2zm0 0v-8\" />\n                            </svg>\n                        </button>\n                    </div>\n                </div>\n            </div>\n        </div>\n    </div>\n    <script>\n        const messagesContainer = document.getElementById('messages');\n        const chatContainer = document.getElementById('chat-container');\n        const messageInput = document.getElementById('message-input');\n        const sendBtn = document.getElementById('send-btn');\n        const uploadBtn = document.getElementById('upload-btn');\n        const imageInput = document.getElementById('image-input');\n        const imagePreviewContainer = document.getElementById('image-preview-container');\n        const currentModelBadge = document.getElementById('current-model');\n        \n        let conversationHistory = [];\n        let selectedImages = [];\n        let isLoading = false;\n        let messageStartTime = 0;\n        let inputTokens = 0;\n        \n        // Auto-resize textarea\n        messageInput.addEventListener('input', function() {\n            this.style.height = 'auto';\n            this.style.height = Math.min(this.scrollHeight, 200) + 'px';\n        });\n        \n        // Handle Enter key\n        messageInput.addEventListener('keydown', function(e) {\n            if (e.key === 'Enter' && !e.shiftKey) {\n                e.preventDefault();\n                sendMessage();\n            }\n        });\n        \n        // Upload button click\n        uploadBtn.addEventListener('click', () => imageInput.click());\n        \n        // Handle image selection\n        imageInput.addEventListener('change', function(e) {\n            const files = Array.from(e.target.files);\n            files.forEach(file => {\n                if (file.type.startsWith('image/')) {\n                    const reader = new FileReader();\n                    reader.onload = (e) => {\n                        selectedImages.push(e.target.result);\n                        updateImagePreviews();\n                    };\n                    reader.readAsDataURL(file);\n                }\n            });\n            this.value = '';\n        });\n        \n        function updateImagePreviews() {\n            imagePreviewContainer.innerHTML = '';\n            selectedImages.forEach((img, index) => {\n                const preview = document.createElement('div');\n                preview.className = 'image-preview';\n                preview.innerHTML = `\n                    <img src=\"${img}\" alt=\"Preview\">\n                    <button class=\"remove-image\" onclick=\"removeImage(${index})\">×</button>\n                `;\n                imagePreviewContainer.appendChild(preview);\n            });\n            imagePreviewContainer.classList.toggle('has-images', selectedImages.length > 0);\n        }\n        \n        window.removeImage = function(index) {\n            selectedImages.splice(index, 1);\n            updateImagePreviews();\n        };\n        \n        sendBtn.addEventListener('click', sendMessage);\n        \n        async function sendMessage() {\n            const content = messageInput.value.trim();\n            if ((!content && selectedImages.length === 0) || isLoading) return;\n            \n            // Remove welcome message\n            const welcome = messagesContainer.querySelector('.welcome');\n            if (welcome) welcome.remove();\n            \n            // Build user message\n            const userMessage = { role: 'user', content: content };\n            if (selectedImages.length > 0) {\n                userMessage.images = [...selectedImages];\n            }\n            \n            // Add to history\n            conversationHistory.push(userMessage);\n            \n            // Display user message\n            appendMessage('user', content, selectedImages);\n            \n            // Clear input\n            messageInput.value = '';\n            messageInput.style.height = 'auto';\n            selectedImages = [];\n            updateImagePreviews();\n            \n            // Prepare API request\n            const messages = conversationHistory.map(msg => {\n                if (msg.images && msg.images.length > 0) {\n                    return {\n                        role: msg.role,\n                        content: [\n                            { type: 'text', text: msg.content || '' },\n                            ...msg.images.map(img => ({\n                                type: 'image_url',\n                                image_url: { url: img }\n                            }))\n                        ]\n                    };\n                }\n                return { role: msg.role, content: msg.content };\n            });\n            \n            const requestBody = {\n                model: 'default',\n                messages: messages,\n                stream: true\n            };\n            \n            // Show loading\n            isLoading = true;\n            sendBtn.disabled = true;\n            const loadingEl = document.createElement('div');\n            loadingEl.className = 'message assistant';\n            loadingEl.innerHTML = `\n                <div class=\"message-avatar\">AI</div>\n                <div class=\"message-content\">\n                    <div class=\"loading\">\n                        <div class=\"loading-dot\"></div>\n                        <div class=\"loading-dot\"></div>\n                        <div class=\"loading-dot\"></div>\n                    </div>\n                </div>\n            `;\n            messagesContainer.appendChild(loadingEl);\n            scrollToBottom();\n            \n            messageStartTime = Date.now();\n            inputTokens = estimateTokenCount(content);\n            \n            try {\n                const response = await fetch('/v1/chat/completions', {\n                    method: 'POST',\n                    headers: { 'Content-Type': 'application/json' },\n                    body: JSON.stringify(requestBody)\n                });\n                \n                if (!response.ok) {\n                    throw new Error(`HTTP error! status: ${response.status}`);\n                }\n                \n                // Remove loading\n                loadingEl.remove();\n                \n                // Create assistant message element with reasoning support\n                const assistantEl = document.createElement('div');\n                assistantEl.className = 'message assistant';\n                assistantEl.innerHTML = `\n                    <div class=\"message-avatar\">AI</div>\n                    <div class=\"message-content\">\n                        <div class=\"message-header\">\n                            <span class=\"message-role\">Assistant</span>\n                            <div class=\"message-meta\">\n                                <span class=\"model-name-badge\" id=\"model-name\"></span>\n                                <span class=\"tps-badge\" id=\"tps-info\"></span>\n                            </div>\n                        </div>\n                        <div class=\"reasoning-wrapper\" id=\"reasoning-wrapper\" style=\"display: none;\">\n                            <div class=\"reasoning-toggle\" id=\"reasoning-toggle\">\n                                <svg xmlns=\"http://www.w3.org/2000/svg\" fill=\"none\" viewBox=\"0 0 24 24\" stroke=\"currentColor\">\n                                    <path stroke-linecap=\"round\" stroke-linejoin=\"round\" stroke-width=\"2\" d=\"M19 9l-7 7-7-7\" />\n                                </svg>\n                                <span>View reasoning</span>\n                            </div>\n                            <div class=\"reasoning-content\" id=\"reasoning-content\" style=\"display: none;\"></div>\n                        </div>\n                        <div class=\"message-text\" id=\"assistant-text\"></div>\n                    </div>\n                `;\n                messagesContainer.appendChild(assistantEl);\n                \n                const textEl = document.getElementById('assistant-text');\n                const modelEl = document.getElementById('model-name');\n                const tpsEl = document.getElementById('tps-info');\n                const reasoningWrapper = document.getElementById('reasoning-wrapper');\n                const reasoningToggle = document.getElementById('reasoning-toggle');\n                const reasoningContent = document.getElementById('reasoning-content');\n                \n                let fullContent = '';\n                let fullReasoning = '';\n                let hasReasoning = false;\n                let modelName = '';\n                const reader = response.body.getReader();\n                const decoder = new TextDecoder();\n                \n                let reasoningToggleAttached = false;\n                \n                while (true) {\n                    const { done, value } = await reader.read();\n                    if (done) break;\n                    \n                    const chunk = decoder.decode(value);\n                    const lines = chunk.split('\\n');\n                    \n                    for (const line of lines) {\n                        if (line.startsWith('data: ')) {\n                            const data = line.slice(6);\n                            if (data === '[DONE]') continue;\n                            \n                            try {\n                                const json = JSON.parse(data);\n                                \n                                // Capture model name\n                                if (json.model && !modelName) {\n                                    modelName = json.model;\n                                    modelEl.textContent = modelName;\n                                }\n                                \n                                // Get content delta\n                                const delta = json.choices?.[0]?.delta;\n                                \n                                // Handle reasoning content\n                                if (delta?.reasoning_content) {\n                                    if (!hasReasoning) {\n                                        // First time seeing reasoning - show the toggle\n                                        hasReasoning = true;\n                                        reasoningWrapper.style.display = 'flex';\n                                        if (!reasoningToggleAttached) {\n                                            reasoningToggle.addEventListener('click', function() {\n                                                const isExpanded = reasoningToggle.classList.toggle('expanded');\n                                                reasoningContent.style.display = isExpanded ? 'block' : 'none';\n                                            });\n                                            reasoningToggleAttached = true;\n                                        }\n                                    }\n                                    fullReasoning += delta.reasoning_content;\n                                    reasoningContent.textContent = fullReasoning;\n                                }\n                                \n                                // Handle regular content\n                                if (delta?.content) {\n                                    fullContent += delta.content;\n                                    textEl.textContent = fullContent;\n                                }\n                            } catch (e) {\n                                // Ignore parse errors for incomplete chunks\n                            }\n                        }\n                    }\n                }\n                \n                // Calculate TPS\n                const elapsedSeconds = (Date.now() - messageStartTime) / 1000;\n                const outputTokens = estimateTokenCount(fullContent);\n                const tps = outputTokens > 0 ? (outputTokens / elapsedSeconds).toFixed(1) : '0';\n                tpsEl.textContent = `${outputTokens} tokens · ${tps} TPS`;\n                \n                // Add to history\n                conversationHistory.push({ role: 'assistant', content: fullContent });\n                \n                // Clean up IDs\n                textEl.removeAttribute('id');\n                modelEl.removeAttribute('id');\n                tpsEl.removeAttribute('id');\n                if (reasoningWrapper) reasoningWrapper.removeAttribute('id');\n                if (reasoningToggle) reasoningToggle.removeAttribute('id');\n                if (reasoningContent) reasoningContent.removeAttribute('id');\n                \n            } catch (error) {\n                loadingEl.remove();\n                const errorEl = document.createElement('div');\n                errorEl.className = 'error-message';\n                errorEl.textContent = `Error: ${error.message}`;\n                messagesContainer.appendChild(errorEl);\n                setTimeout(() => errorEl.remove(), 5000);\n                \n                // Remove failed message from history\n                conversationHistory.pop();\n            } finally {\n                isLoading = false;\n                sendBtn.disabled = false;\n            }\n        }\n        \n        function appendMessage(role, content, images = []) {\n            const el = document.createElement('div');\n            el.className = `message ${role}`;\n            \n            let imagesHtml = '';\n            if (images.length > 0) {\n                imagesHtml = `<div class=\"message-images\">${images.map(img => `<img src=\"${img}\" onclick=\"window.open('${img}')\">`).join('')}</div>`;\n            }\n            \n            el.innerHTML = `\n                <div class=\"message-avatar\">${role === 'user' ? 'U' : 'AI'}</div>\n                <div class=\"message-content\">\n                    <div class=\"message-header\">\n                        <span class=\"message-role\">${role === 'user' ? 'You' : 'Assistant'}</span>\n                    </div>\n                    ${imagesHtml}\n                    <div class=\"message-text\">${escapeHtml(content)}</div>\n                </div>\n            `;\n            messagesContainer.appendChild(el);\n            scrollToBottom();\n        }\n        \n        function scrollToBottom() {\n            chatContainer.scrollTop = chatContainer.scrollHeight;\n        }\n        \n        function escapeHtml(text) {\n            const div = document.createElement('div');\n            div.textContent = text;\n            return div.innerHTML;\n        }\n        \n        function estimateTokenCount(text) {\n            // Rough estimation: ~4 characters per token for English\n            return Math.ceil(text.length / 4);\n        }\n    </script>\n</body>\n</html>";

// The settings option that clears the default model, around its `checked` mark.
pub const NONE_OPTION_HEAD: &'static str = "<div class=\"model-option\">\n    <input type=\"radio\" id=\"none\" name=\"default_model\" value=\"\" ";

pub const NONE_OPTION_TAIL: &'static str = ">\n    <label for=\"none\">\n        <div class=\"model-name\">None</div>\n    </label>\n</div>";

// The settings option for one model, around its parts.
pub const MODEL_OPTION_ID_BEFORE: &'static str = "<div class=\"model-option\">\n    <input type=\"radio\" id=\"";

pub const MODEL_OPTION_VALUE_BEFORE: &'static str = "\" name=\"default_model\" value=\"";

pub const MODEL_OPTION_CHECK_BEFORE: &'static str = "\" ";

pub const MODEL_OPTION_LABEL_BEFORE: &'static str = ">\n    <label for=\"";

pub const MODEL_OPTION_NAME_BEFORE: &'static str = "\">\n        <div class=\"model-name\">";

pub const MODEL_OPTION_URL_BEFORE: &'static str = "</div>\n        <div class=\"provider-url\">Provider: ";

pub const MODEL_OPTION_END: &'static str = "</div>\n    </label>\n</div>";

// The settings page around its list of options.
pub const SETTINGS_PAGE_HEAD: &'static str = "\n<!DOCTYPE html>\n<html>\n<head>\n    <title>LLM Load Balancer - Set Default Model</title>\n    <style>\n        body {\n            font-family: -apple-system, BlinkMacSystemFont, 'Segoe UI', Roboto, Oxygen, Ubuntu, sans-serif;\n            display: flex;\n            justify-content: center;\n            align-items: flex-start;\n            min-height: 100vh;\n            margin: 0;\n            padding: 2rem;\n            background-color: #f5f7fa;\n        }\n        .container {\n            background: white;\n            padding: 2rem;\n            border-radius: 12px;\n            box-shadow: 0 4px 6px rgba(0,0,0,0.1);\n            width: 100%;\n            height: 100%;\n            margin-top: 2rem;\n        }\n        h1 {\n            margin-top: 0;\n            margin-bottom: 1.5rem;\n            font-size: 1.5rem;\n            color: #1a202c;\n            border-bottom: 2px solid #e2e8f0;\n            padding-bottom: 1rem;\n        }\n        .filter-container {\n            margin-bottom: 1.5rem;\n        }\n        #model-filter {\n            width: 100%;\n            padding: 0.75rem;\n            border: 2px solid #e2e8f0;\n            border-radius: 6px;\n            font-size: 1rem;\n            font-family: inherit;\n            transition: border-color 0.2s, box-shadow 0.2s;\n            box-sizing: border-box;\n        }\n        #model-filter:focus {\n            outline: none;\n            border-color: #3182ce;\n            box-shadow: 0 0 0 3px rgba(49, 130, 206, 0.1);\n        }\n        #model-filter::placeholder {\n            color: #a0aec0;\n        }\n        .models-list {\n            max-height: 850px;\n            overflow-y: auto;\n            border: 1px solid #e2e8f0;\n            border-radius: 8px;\n            padding: 1rem;\n            margin-bottom: 1.5rem;\n            background-color: #fafafa;\n        }\n        .model-option {\n            margin-bottom: 0.5rem;\n            padding: 0.5rem 0.75rem;\n            border: 1px solid #e2e8f0;\n            border-radius: 6px;\n            background-color: white;\n            transition: background-color 0.2s, border-color 0.2s;\n            cursor: pointer;\n            display: flex;\n            align-items: center;\n            gap: 0.75rem;\n        }\n        .model-option:hover {\n            background-color: #f7fafc;\n            border-color: #cbd5e0;\n        }\n        .model-option input[type=\"radio\"] {\n            cursor: pointer;\n            margin: 0;\n        }\n        .model-option label {\n            cursor: pointer;\n            display: flex;\n            align-items: center;\n            gap: 0.75rem;\n            margin: 0;\n            flex: 1;\n        }\n        .model-name {\n            font-weight: 600;\n            color: #2d3748;\n            font-size: 0.95rem;\n            margin: 0;\n        }\n        .provider-url {\n            font-size: 0.8rem;\n            color: #718096;\n            font-family: monospace;\n            margin: 0;\n        }\n        button {\n            width: 100%;\n            padding: 0.75rem;\n            background-color: #3182ce;\n            color: white;\n            border: none;\n            border-radius: 6px;\n            cursor: pointer;\n            font-size: 1rem;\n            font-weight: 500;\n            transition: background-color 0.2s;\n        }\n        button:hover {\n            background-color: #2c5282;\n        }\n        .models-list::-webkit-scrollbar {\n            width: 8px;\n        }\n        .models-list::-webkit-scrollbar-track {\n            background: #f1f1f1;\n            border-radius: 4px;\n        }\n        .models-list::-webkit-scrollbar-thumb {\n            background: #cbd5e0;\n            border-radius: 4px;\n        }\n        .models-list::-webkit-scrollbar-thumb:hover {\n            background: #a0aec0;\n        }\n    </style>\n</head>\n<body>\n    <div class=\"container\">\n        <h1>Set Default Model</h1>\n        <form action=\"/set_default\" method=\"post\">\n            <div class=\"filter-container\">\n                <input type=\"text\" id=\"model-filter\" placeholder=\"Filter models by name...\" autocomplete=\"off\">\n            </div>\n            <div class=\"models-list\">\n                ";

pub const SETTINGS_PAGE_TAIL: &'static str = "\n            </div>\n</form>\n<button id=\"refresh-btn\" onclick=\"refreshModels()\" style=\"margin-top: 1rem; width: auto; background-color: #48bb78;\">Refresh Provider Models</button>\n</div>\n<script>\nasync function refreshModels() {\nconst refreshBtn = document.getElementById('refresh-btn');\nconst originalText = refreshBtn.textContent;\nrefreshBtn.disabled = true;\nrefreshBtn.textContent = 'Refreshing...';\ndocument.querySelectorAll('.model-option').forEach(function(opt) {\nopt.style.opacity = '0.5';\n});\ntry {\nconst response = await fetch('/refresh_models', { method: 'POST' });\nif (response.ok) {\nwindow.location.reload();\n} else {\nconst data = await response.json();\nalert(data.error || 'Failed to refresh models');\nrefreshBtn.disabled = false;\nrefreshBtn.textContent = originalText;\ndocument.querySelectorAll('.model-option').forEach(function(opt) {\nopt.style.opacity = '1';\n});\n}\n} catch (error) {\nconsole.error('Error refreshing models:', error);\nalert('Error refreshing models');\nrefreshBtn.disabled = false;\nrefreshBtn.textContent = originalText;\ndocument.querySelectorAll('.model-option').forEach(function(opt) {\nopt.style.opacity = '1';\n});\n}\n}\n\ndocument.addEventListener('DOMContentLoaded', function() {\n            const filterInput = document.getElementById('model-filter');\n            const modelOptions = document.querySelectorAll('.model-option');\n            const radioButtons = document.querySelectorAll('input[type=\"radio\"]');\n\n            filterInput.addEventListener('input', function() {\n                const filterText = this.value.toLowerCase();\n                modelOptions.forEach(function(option) {\n                    const modelName = option.querySelector('.model-name').textContent.toLowerCase();\n                    if (modelName.includes(filterText)) {\n                        option.style.display = 'flex';\n                    } else {\n                        option.style.display = 'none';\n                    }\n                });\n            });\n\n            // Handle radio button clicks - send request immediately\n            radioButtons.forEach(function(radio) {\n                radio.addEventListener('change', async function() {\n                    const formData = new FormData();\n                    formData.append('default_model', this.value);\n\n                    // Show loading state\n                    document.querySelectorAll('.model-option').forEach(function(opt) {\n                        opt.style.opacity = '0.5';\n                    });\n\n                    try {\n                        const response = await fetch('/set_default', {\n                            method: 'POST',\n                            headers: {\n                                'Content-Type': 'application/x-www-form-urlencoded'\n                            },\n                            body: new URLSearchParams(formData)\n                        });\n\n                        if (response.ok) {\n                            // Show success feedback\n                            const successMsg = document.createElement('div');\n                            successMsg.textContent = 'Default model updated successfully!';\n                            successMsg.style.cssText = 'position: fixed; bottom: 20px; right: 20px; background: #48bb78; color: white; padding: 1rem 1.5rem; border-radius: 8px; box-shadow: 0 4px 6px rgba(0,0,0,0.1); z-index: 1000; animation: fadeIn 0.3s ease;';\n                            document.body.appendChild(successMsg);\n\n                            // Remove success message after 2 seconds\n                            setTimeout(function() { successMsg.remove(); }, 2000);\n                        } else {\n                            console.error('Failed to update default model');\n                            // Show error feedback\n                            const errorMsg = document.createElement('div');\n                            errorMsg.textContent = 'Failed to update default model';\n                            errorMsg.style.cssText = 'position: fixed; bottom: 20px; right: 20px; background: #f56565; color: white; padding: 1rem 1.5rem; border-radius: 8px; box-shadow: 0 4px 6px rgba(0,0,0,0.1); z-index: 1000; animation: fadeIn 0.3s ease;';\n                            document.body.appendChild(errorMsg);\n\n                            // Remove error message after 2 seconds\n                            setTimeout(function() { errorMsg.remove(); }, 2000);\n                        }\n                    } catch (error) {\n                        console.error('Error updating default model:', error);\n                        // Show error feedback\n                        const errorMsg = document.createElement('div');\n                        errorMsg.textContent = 'Error updating default model';\n                        errorMsg.style.cssText = 'position: fixed; bottom: 20px; right: 20px; background: #f56565; color: white; padding: 1rem 1.5rem; border-radius: 8px; box-shadow: 0 4px 6px rgba(0,0,0,0.1); z-index: 1000; animation: fadeIn 0.3s ease;';\n                        document.body.appendChild(errorMsg);\n\n                        // Remove error message after 2 seconds\n                        setTimeout(function() { errorMsg.remove(); }, 2000);\n                    } finally {\n                        // Restore opacity\n                        document.querySelectorAll('.model-option').forEach(function(opt) {\n                            opt.style.opacity = '1';\n                        });\n                    }\n                });\n            });\n\n            // Add fade-in animation\n            const style = document.createElement('style');\n            style.textContent = `\n                @keyframes fadeIn {\n                    from { opacity: 0; transform: translateY(10px); }\n                    to { opacity: 1; transform: translateY(0); }\n                }\n            `;\n            document.head.appendChild(style);\n        });\n    </script>\n</body>\n</html>\n";

/// The chat page for a model name.
pub open spec fn chat_page(model_name: Seq<char>) -> Seq<char> {
    CHAT_PAGE_HEAD@ + model_name + CHAT_PAGE_TAIL@
}

/// The chat page, showing `default_model_name` as the current model.
pub fn generate_chat_html(default_model_name: &str) -> (html: String)
    ensures
        html@ == chat_page(default_model_name@),
{
    let mut html = String::from_str(CHAT_PAGE_HEAD);
    html.append(default_model_name);
    html.append(CHAT_PAGE_TAIL);
    html
}

/// The chat page for the balancer: the current model is the default model,
/// or `default` when none is chosen.
pub fn chat_page_html(lb: &LoadBalancer) -> (html: String)
    ensures
        html@ == chat_page(
            match lb.default_model() {
                Some(m) => m,
                None => "default"@,
            },
        ),
{
    let name = match lb.get_default_model() {
        Some(m) => m,
        None => String::from_str("default"),
    };
    generate_chat_html(name.as_str())
}

pub open spec fn checked_mark(checked: bool) -> Seq<char> {
    if checked {
        "checked"@
    } else {
        ""@
    }
}

/// The option that clears the default model; it is checked when none is chosen.
pub open spec fn none_option(default_model: Option<Seq<char>>) -> Seq<char> {
    NONE_OPTION_HEAD@ + checked_mark(default_model is None) + NONE_OPTION_TAIL@
}

/// The option for one model, with its provider's address.
pub open spec fn model_option(name: Seq<char>, provider_url: Seq<char>, checked: bool) -> Seq<char> {
    MODEL_OPTION_ID_BEFORE@ + slashes_to_underscores(name) + MODEL_OPTION_VALUE_BEFORE@ + name
        + MODEL_OPTION_CHECK_BEFORE@ + checked_mark(checked) + MODEL_OPTION_LABEL_BEFORE@
        + slashes_to_underscores(name) + MODEL_OPTION_NAME_BEFORE@ + name + MODEL_OPTION_URL_BEFORE@
        + provider_url + MODEL_OPTION_END@
}

/// The address of provider `index`, `Unknown` when there is no such provider.
pub open spec fn provider_url(providers: Seq<Provider>, index: usize) -> Seq<char> {
    if index < providers.len() {
        providers[index as int].base_url@
    } else {
        "Unknown"@
    }
}

/// The options for the models, in the order given.
pub open spec fn model_options(
    models: Seq<(Seq<char>, usize)>,
    default_model: Option<Seq<char>>,
    providers: Seq<Provider>,
) -> Seq<char>
    decreases models.len(),
{
    if models.len() == 0 {
        Seq::empty()
    } else {
        let (name, index) = models.last();
        model_options(models.drop_last(), default_model, providers) + model_option(
            name,
            provider_url(providers, index),
            default_model == Some(name),
        )
    }
}

/// The settings page listing the models in the order given.
pub open spec fn settings_page(
    models: Seq<(Seq<char>, usize)>,
    default_model: Option<Seq<char>>,
    providers: Seq<Provider>,
) -> Seq<char> {
    SETTINGS_PAGE_HEAD@ + none_option(default_model) + model_options(
        models,
        default_model,
        providers,
    ) + SETTINGS_PAGE_TAIL@
}

fn push_checked_mark(out: &mut String, checked: bool)
    ensures
        final(out)@ == old(out)@ + checked_mark(checked),
{
    if checked {
        out.append("checked");
    } else {
        out.append("");
    }
}

fn push_model_option(html: &mut String, name: &str, url: &str, checked: bool)
    ensures
        final(html)@ == old(html)@ + model_option(name@, url@, checked),
{
    let id = replace_slashes(name);
    html.append(MODEL_OPTION_ID_BEFORE);
    html.append(id.as_str());
    html.append(MODEL_OPTION_VALUE_BEFORE);
    html.append(name);
    html.append(MODEL_OPTION_CHECK_BEFORE);
    push_checked_mark(html, checked);
    html.append(MODEL_OPTION_LABEL_BEFORE);
    html.append(id.as_str());
    html.append(MODEL_OPTION_NAME_BEFORE);
    html.append(name);
    html.append(MODEL_OPTION_URL_BEFORE);
    html.append(url);
    html.append(MODEL_OPTION_END);
    assert(html@ =~= old(html)@ + model_option(name@, url@, checked));
}

/// The settings page for the models in the order given.
pub fn settings_page_html(lb: &LoadBalancer, models: &Vec<(String, usize)>) -> (html: String)
    ensures
        html@ == settings_page(entries_view(models@), lb.default_model(), lb.config().providers@),
{
    let default_model = lb.get_default_model();
    let ghost providers = lb.config().providers@;
    let ghost list = entries_view(models@);
    let mut html = String::from_str(SETTINGS_PAGE_HEAD);
    html.append(NONE_OPTION_HEAD);
    push_checked_mark(&mut html, default_model.is_none());
    html.append(NONE_OPTION_TAIL);
    let ghost start = html@;
    assert(start =~= SETTINGS_PAGE_HEAD@ + none_option(lb.default_model()));
    let mut i: usize = 0;
    while i < models.len()
        invariant
            i <= models.len(),
            list == entries_view(models@),
            providers == lb.config().providers@,
            crate::models::opt_text(default_model) == lb.default_model(),
            html@ == start + model_options(list.subrange(0, i as int), lb.default_model(), providers),
        decreases models.len() - i,
    {
        let name = models[i].0.as_str();
        let index = models[i].1;
        let checked = match &default_model {
            Some(d) => same_text(d.as_str(), name),
            None => false,
        };
        let url = match lb.get_provider(index) {
            Some(p) => p.base_url.as_str(),
            None => "Unknown",
        };
        push_model_option(&mut html, name, url, checked);
        assert(list[i as int] == (models@[i as int].0@, index));
        assert(list.subrange(0, i + 1).drop_last() =~= list.subrange(0, i as int));
        i = i + 1;
    }
    assert(list.subrange(0, i as int) =~= list);
    html.append(SETTINGS_PAGE_TAIL);
    html
}

/// The settings page: every model the table knows, sorted by name, with the
/// default model checked.
pub fn set_default_page(lb: &LoadBalancer) -> (html: String)
    ensures
        exists|listing: Seq<(Seq<char>, usize)>, sorted: Seq<(Seq<char>, usize)>|
            #[trigger] lists_routes(listing, lb.routes()) && #[trigger] sorted_by_name(sorted)
                && sorted.to_multiset() == listing.to_multiset() && html@ == settings_page(
                sorted,
                lb.default_model(),
                lb.config().providers@,
            ),
{
    let available = lb.get_available_models();
    let sorted = sort_models_by_name(available);
    settings_page_html(lb, &sorted)
}

/// The default model that the settings form asks for: none for an empty name.
pub fn requested_default(form: SetDefaultRequest) -> (m: Option<String>)
    ensures
        match m {
            Some(name) => form.default_model@.len() > 0 && name@ == form.default_model@,
            None => form.default_model@.len() == 0,
        },
{
    if form.default_model.as_str().is_empty() {
        None
    } else {
        Some(form.default_model)
    }
}

} // verus!

verus! {

proof fn lemma_model_options_concat(
    a: Seq<(Seq<char>, usize)>,
    b: Seq<(Seq<char>, usize)>,
    default_model: Option<Seq<char>>,
    providers: Seq<Provider>,
)
    ensures
        model_options(a + b, default_model, providers) == model_options(a, default_model, providers)
            + model_options(b, default_model, providers),
    decreases b.len(),
{
    if b.len() == 0 {
        assert(a + b =~= a);
        assert(model_options(a, default_model, providers) + Seq::<char>::empty() =~= model_options(
            a,
            default_model,
            providers,
        ));
    } else {
        assert((a + b).drop_last() =~= a + b.drop_last());
        assert((a + b).last() == b.last());
        lemma_model_options_concat(a, b.drop_last(), default_model, providers);
        let (name, index) = b.last();
        let opt = model_option(name, provider_url(providers, index), default_model == Some(name));
        assert(model_options(a, default_model, providers) + model_options(
            b.drop_last(),
            default_model,
            providers,
        ) + opt =~= model_options(a, default_model, providers) + (model_options(
            b.drop_last(),
            default_model,
            providers,
        ) + opt));
    }
}

/// On the settings page each model's option is checked exactly when that model
/// is the chosen default: the options are the models' own options in order,
/// the k-th one marked `checked` if and only if its name is the default model.
pub proof fn law_only_the_default_is_checked(
    models: Seq<(Seq<char>, usize)>,
    default_model: Option<Seq<char>>,
    providers: Seq<Provider>,
    k: int,
)
    requires
        0 <= k < models.len(),
    ensures
        model_options(models, default_model, providers) == model_options(
            models.take(k),
            default_model,
            providers,
        ) + model_option(
            models[k].0,
            provider_url(providers, models[k].1),
            default_model == Some(models[k].0),
        ) + model_options(models.skip(k + 1), default_model, providers),
{
    let single = seq![models[k]];
    assert(models =~= models.take(k) + single + models.skip(k + 1));
    lemma_model_options_concat(models.take(k) + single, models.skip(k + 1), default_model, providers);
    lemma_model_options_concat(models.take(k), single, default_model, providers);
    assert(single.drop_last() =~= Seq::<(Seq<char>, usize)>::empty());
    let opt = model_option(
        models[k].0,
        provider_url(providers, models[k].1),
        default_model == Some(models[k].0),
    );
    assert(single.last() == models[k]);
    assert(model_options(single.drop_last(), default_model, providers) == Seq::<char>::empty());
    assert(Seq::<char>::empty() + opt =~= opt);
    assert(model_options(single, default_model, providers) =~= opt);
}

} // verus!
